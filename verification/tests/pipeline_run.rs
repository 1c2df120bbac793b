//! The whole pipeline on complete FEN strings.

use fenboard::report::run_pipeline;

const START_FEN: &str = "rnbqkbnr/pppppppp/8/8/8/8/PPPPPPPP/RNBQKBNR w KQkq - 0 1";

#[test]
fn starting_position_full_run() {
    let r = run_pipeline(START_FEN, true);
    assert!(!r.fatal);
    assert_eq!(
        r.info_lines,
        vec![
            "White to move",
            "White can castle kingside",
            "White can castle queenside",
            "Black can castle kingside",
            "Black can castle queenside",
            "No en-passant target square is available",
        ]
    );
    assert!(r.error_lines.is_empty());
    assert_eq!(r.board.len(), 8);
    assert_eq!(r.board[0], vec!["♜", "♞", "♝", "♛", "♚", "♝", "♞", "♜"]);
    assert_eq!(r.board[7], vec!["♖", "♘", "♗", "♕", "♔", "♗", "♘", "♖"]);
    assert_eq!(r.grid_text.matches('\n').count(), 8);
}

#[test]
fn starting_position_grid_text() {
    let r = run_pipeline(START_FEN, false);
    assert!(r.info_lines.is_empty());
    let empty_row = "              \n"; // eight empty cells, seven 2-space gaps
    let expected = format!(
        "{}{}{}{}{}{}{}{}",
        "♜ ♞ ♝ ♛ ♚ ♝ ♞ ♜\n",
        "♟ ♟ ♟ ♟ ♟ ♟ ♟ ♟\n",
        empty_row,
        empty_row,
        empty_row,
        empty_row,
        "♙ ♙ ♙ ♙ ♙ ♙ ♙ ♙\n",
        "♖ ♘ ♗ ♕ ♔ ♗ ♘ ♖\n"
    );
    assert_eq!(r.grid_text, expected);
}

#[test]
fn illegal_placement_character_is_fatal() {
    let r = run_pipeline("rnbqkbnx/8/8/8/8/8/8/8 w KQkq - 0 1", false);
    assert!(r.fatal);
    assert_eq!(
        r.error_lines,
        vec!["Error: Unexpected symbol in layout string rnbqkbnx/8/8/8/8/8/8/8"]
    );
    assert!(r.board.is_empty());
    assert_eq!(r.grid_text, "");
}

#[test]
fn short_fen_warns_but_continues() {
    let r = run_pipeline("8/8/8/8/8/8/8/8 w", false);
    assert!(!r.fatal);
    assert_eq!(
        r.error_lines,
        vec![
            "Error: FEN does not contain 6 elements",
            "Example FEN: rnbqkbnr/pppppppp/8/8/8/8/PPPPPPPP/RNBQKBNR w KQkq - 0 1",
        ]
    );
    assert_eq!(r.board.len(), 8);
    assert_eq!(r.grid_text.matches('\n').count(), 8);
}

#[test]
fn empty_fen_is_fatal() {
    let r = run_pipeline("", false);
    assert!(r.fatal);
    assert_eq!(
        r.error_lines,
        vec![
            "Error: FEN does not contain 6 elements",
            "Example FEN: rnbqkbnr/pppppppp/8/8/8/8/PPPPPPPP/RNBQKBNR w KQkq - 0 1",
        ]
    );
    assert!(r.info_lines.is_empty());
    assert_eq!(r.grid_text, "");
}

#[test]
fn whitespace_only_fen_is_fatal() {
    let r = run_pipeline("   \t  ", true);
    assert!(r.fatal);
    assert!(r.info_lines.is_empty());
}

#[test]
fn castling_dash_prints_single_line() {
    let r = run_pipeline("8/8/8/8/8/8/8/8 w - - 0 1", true);
    assert_eq!(
        r.info_lines,
        vec![
            "White to move",
            "Neither side can castle",
            "No en-passant target square is available",
        ]
    );
    assert!(r.error_lines.is_empty());
}

#[test]
fn castling_kq_prints_white_lines_only() {
    let r = run_pipeline("8/8/8/8/8/8/8/8 b KQ e3 0 1", true);
    assert_eq!(
        r.info_lines,
        vec![
            "Black to move",
            "White can castle kingside",
            "White can castle queenside",
            "En-passant target square is e3",
        ]
    );
    assert!(r.error_lines.is_empty());
}

#[test]
fn bad_color_and_castling_fields_warn_only() {
    let r = run_pipeline("8/8/8/8/8/8/8/8 x yz - 0 1", true);
    assert!(!r.fatal);
    assert_eq!(
        r.error_lines,
        vec![
            "Error: Expected 'w' or 'b' in second element",
            "Error: Expected one or more of [KQkq-] in third element to denote castling rights",
            "Error: Unexpected symbol in third element (castling rights)",
        ]
    );
}

#[test]
fn castling_errors_reported_without_info_flag() {
    let r = run_pipeline("8/8/8/8/8/8/8/8 x yz - 0 1", false);
    assert!(!r.fatal);
    assert!(r.info_lines.is_empty());
    // The color check runs only under the info flag; the castling checks
    // always run.
    assert_eq!(
        r.error_lines,
        vec![
            "Error: Expected one or more of [KQkq-] in third element to denote castling rights",
            "Error: Unexpected symbol in third element (castling rights)",
        ]
    );
}

#[test]
fn two_runs_produce_identical_output() {
    for fen in [START_FEN, "8/8/8/8/8/8/8/8 w", "", "rnbqkbnx/8 w"] {
        for info in [false, true] {
            let a = run_pipeline(fen, info);
            let b = run_pipeline(fen, info);
            assert_eq!(a.fatal, b.fatal);
            assert_eq!(a.info_lines, b.info_lines);
            assert_eq!(a.error_lines, b.error_lines);
            assert_eq!(a.board, b.board);
            assert_eq!(a.grid_text, b.grid_text);
        }
    }
}

#[test]
fn whitespace_runs_between_fields_collapse() {
    let r = run_pipeline("8/8/8/8/8/8/8/8  w \t KQ  -  0  1", true);
    assert!(!r.fatal);
    assert!(r.error_lines.is_empty());
    assert_eq!(
        r.info_lines,
        vec![
            "White to move",
            "White can castle kingside",
            "White can castle queenside",
            "No en-passant target square is available",
        ]
    );
}

#[test]
fn single_rank_placement_renders_one_row() {
    let r = run_pipeline("3p4 w KQkq - 0 1", false);
    assert!(!r.fatal);
    assert_eq!(r.board.len(), 1);
    assert_eq!(r.board[0], vec!["", "", "", "♟", "", "", "", ""]);
    assert_eq!(r.grid_text.matches('\n').count(), 1);
}
