//! The graphical renderer's per-square decisions.

use fenboard::render::{
    file_label, loop_action, piece_draw, rank_label, square_shade, BoardEvent, LoopAction,
    PiecePaint, SquareShade,
};

#[test]
fn top_left_square_is_light_and_shades_alternate() {
    assert_eq!(square_shade(0, 0), SquareShade::Light);
    assert_eq!(square_shade(0, 1), SquareShade::Dark);
    assert_eq!(square_shade(0, 7), SquareShade::Dark);
    // The pattern flips at each new rank.
    assert_eq!(square_shade(1, 0), SquareShade::Dark);
    assert_eq!(square_shade(1, 1), SquareShade::Light);
    assert_eq!(square_shade(7, 0), SquareShade::Dark);
    assert_eq!(square_shade(7, 7), SquareShade::Light);
}

#[test]
fn file_labels_run_a_to_h() {
    let expected = ['a', 'b', 'c', 'd', 'e', 'f', 'g', 'h'];
    for (col, c) in expected.iter().enumerate() {
        assert_eq!(file_label(col), *c);
    }
}

#[test]
fn rank_labels_run_8_down_to_1() {
    let expected = ['8', '7', '6', '5', '4', '3', '2', '1'];
    for (row, c) in expected.iter().enumerate() {
        assert_eq!(rank_label(row), *c);
    }
}

#[test]
fn white_pieces_draw_black_shapes_filled_white() {
    for (white, black) in [
        ("♙", "♟"),
        ("♘", "♞"),
        ("♗", "♝"),
        ("♖", "♜"),
        ("♕", "♛"),
        ("♔", "♚"),
    ] {
        let d = piece_draw(white);
        assert_eq!(d.paint, PiecePaint::WhiteFill);
        assert_eq!(d.shape, black);
    }
}

#[test]
fn black_pieces_draw_their_own_glyph_filled_black() {
    for glyph in ["♟", "♞", "♝", "♜", "♛", "♚"] {
        let d = piece_draw(glyph);
        assert_eq!(d.paint, PiecePaint::BlackFill);
        assert_eq!(d.shape, glyph);
    }
}

#[test]
fn empty_cells_draw_invisibly() {
    let d = piece_draw("");
    assert_eq!(d.paint, PiecePaint::Invisible);
    assert_eq!(d.shape, "");
    let d = piece_draw("x");
    assert_eq!(d.paint, PiecePaint::Invisible);
}

#[test]
fn loop_actions_follow_events() {
    assert_eq!(loop_action(&BoardEvent::RenderRequested), LoopAction::DrawBoard);
    assert_eq!(loop_action(&BoardEvent::UpdateRequested), LoopAction::Idle);
    assert_eq!(loop_action(&BoardEvent::WindowClosed), LoopAction::Stop);
}
