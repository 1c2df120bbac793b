//! The board model builder: rank splitting, digit expansion, row order.

use fenboard::board::{build_board, flatten_board};

#[test]
fn starting_position_first_and_last_ranks() {
    let board = build_board("rnbqkbnr/pppppppp/8/8/8/8/PPPPPPPP/RNBQKBNR");
    assert_eq!(board.len(), 8);
    for row in &board {
        assert_eq!(row.len(), 8);
    }
    assert_eq!(board[0], vec!["♜", "♞", "♝", "♛", "♚", "♝", "♞", "♜"]);
    assert_eq!(board[1], vec!["♟"; 8]);
    for r in 2..6 {
        assert_eq!(board[r], vec![""; 8]);
    }
    assert_eq!(board[6], vec!["♙"; 8]);
    assert_eq!(board[7], vec!["♖", "♘", "♗", "♕", "♔", "♗", "♘", "♖"]);
}

#[test]
fn digits_expand_to_that_many_empty_cells() {
    let board = build_board("3p4");
    assert_eq!(board.len(), 1);
    assert_eq!(board[0], vec!["", "", "", "♟", "", "", "", ""]);
}

#[test]
fn ragged_placements_build_ragged_boards() {
    // No sum-to-eight check is made: short or long ranks pass through.
    let board = build_board("ppp/2");
    assert_eq!(board.len(), 2);
    assert_eq!(board[0], vec!["♟", "♟", "♟"]);
    assert_eq!(board[1], vec!["", ""]);
}

#[test]
fn empty_placement_gives_one_empty_rank() {
    // An empty rank description has no characters to expand, so its row
    // holds no cells at all.
    let board = build_board("");
    assert_eq!(board.len(), 1);
    assert!(board[0].is_empty());
}

#[test]
fn flatten_keeps_row_major_order() {
    let board = build_board("pP/Kk");
    let cells = flatten_board(&board);
    assert_eq!(cells, vec!["♟", "♙", "♔", "♚"]);
}
