//! The terminal grid renderer: eight columns, one space of filling.

use fenboard::grid::render_grid;

fn cells_of(strs: &[&str]) -> Vec<String> {
    strs.iter().map(|s| s.to_string()).collect()
}

#[test]
fn sixty_four_cells_make_eight_rows_of_eight() {
    let cells = vec!["x".to_string(); 64];
    let text = render_grid(&cells);
    assert_eq!(text.matches('\n').count(), 8);
    let line = "x x x x x x x x\n";
    assert_eq!(text, line.repeat(8));
}

#[test]
fn sixty_four_empty_cells_still_make_eight_rows() {
    let cells = vec![String::new(); 64];
    let text = render_grid(&cells);
    assert_eq!(text.matches('\n').count(), 8);
    for line in text.split_terminator('\n') {
        // Seven separators of one space each, around eight empty cells.
        assert_eq!(line, "       ");
    }
}

#[test]
fn no_cells_make_no_text() {
    let cells: Vec<String> = Vec::new();
    assert_eq!(render_grid(&cells), "");
}

#[test]
fn partial_last_row_is_kept() {
    let cells = cells_of(&["a", "b", "c", "d", "e", "f", "g", "h", "i"]);
    let text = render_grid(&cells);
    assert_eq!(text.matches('\n').count(), 2);
    let mut lines = text.split_terminator('\n');
    assert_eq!(lines.next(), Some("a b c d e f g h"));
    // The ninth cell sits alone in the first column of the second row; it
    // is not the last column, so its one-space filling remains.
    assert_eq!(lines.next(), Some("i "));
}

#[test]
fn column_widths_follow_the_widest_cell() {
    let cells = cells_of(&[
        "aa", "b", "c", "d", "e", "f", "g", "h", "i", "j", "k", "l", "m", "n", "o", "p",
    ]);
    let text = render_grid(&cells);
    let mut lines = text.split_terminator('\n');
    assert_eq!(lines.next(), Some("aa b c d e f g h"));
    assert_eq!(lines.next(), Some("i  j k l m n o p"));
}
