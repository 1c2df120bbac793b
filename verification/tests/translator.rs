//! The piece-symbol translator: letters to glyphs, digits to themselves,
//! everything else to the empty string.

use fenboard::pieces::translate_piece;

#[test]
fn black_letters_map_to_black_glyphs() {
    assert_eq!(translate_piece("p"), "♟");
    assert_eq!(translate_piece("n"), "♞");
    assert_eq!(translate_piece("b"), "♝");
    assert_eq!(translate_piece("r"), "♜");
    assert_eq!(translate_piece("q"), "♛");
    assert_eq!(translate_piece("k"), "♚");
}

#[test]
fn white_letters_map_to_white_glyphs() {
    assert_eq!(translate_piece("P"), "♙");
    assert_eq!(translate_piece("N"), "♘");
    assert_eq!(translate_piece("B"), "♗");
    assert_eq!(translate_piece("R"), "♖");
    assert_eq!(translate_piece("Q"), "♕");
    assert_eq!(translate_piece("K"), "♔");
}

#[test]
fn digits_map_to_their_own_string_form() {
    for (d, s) in [
        ('1', "1"),
        ('2', "2"),
        ('3', "3"),
        ('4', "4"),
        ('5', "5"),
        ('6', "6"),
        ('7', "7"),
        ('8', "8"),
    ] {
        assert_eq!(translate_piece(&d.to_string()), s);
    }
}

#[test]
fn inputs_outside_the_alphabet_map_to_empty() {
    assert_eq!(translate_piece("x"), "");
    assert_eq!(translate_piece("0"), "");
    assert_eq!(translate_piece("9"), "");
    assert_eq!(translate_piece("/"), "");
    assert_eq!(translate_piece(" "), "");
    assert_eq!(translate_piece(""), "");
    assert_eq!(translate_piece("pp"), "");
    assert_eq!(translate_piece("♟"), "");
}
