//! Translation of FEN placement characters into display glyphs.
//!
//! White pieces are written in FEN with uppercase letters (`PNBRQK`), black
//! pieces with lowercase letters (`pnbrqk`). Each letter maps to the Unicode
//! chess symbol of that piece; each digit `1`-`8` maps to its own one-digit
//! string, which the board builder later expands into that many empty cells;
//! every other character maps to the empty string.

use vstd::prelude::*;

verus! {

/// A FEN run-length digit: `1` through `8`.
pub open spec fn is_fen_digit(c: char) -> bool {
    '1' <= c && c <= '8'
}

/// The number of empty squares a run-length digit stands for.
pub open spec fn digit_value(c: char) -> int {
    c as int - '0' as int
}

/// The canonical display form of one FEN placement character: a Unicode
/// chess glyph for the twelve piece letters, the digit itself for `1`-`8`,
/// and the empty string for everything else.
pub open spec fn glyph_of(c: char) -> Seq<char> {
    if c == 'p' {
        seq!['♟']
    } else if c == 'n' {
        seq!['♞']
    } else if c == 'b' {
        seq!['♝']
    } else if c == 'r' {
        seq!['♜']
    } else if c == 'q' {
        seq!['♛']
    } else if c == 'k' {
        seq!['♚']
    } else if c == 'P' {
        seq!['♙']
    } else if c == 'N' {
        seq!['♘']
    } else if c == 'B' {
        seq!['♗']
    } else if c == 'R' {
        seq!['♖']
    } else if c == 'Q' {
        seq!['♕']
    } else if c == 'K' {
        seq!['♔']
    } else if is_fen_digit(c) {
        seq![c]
    } else {
        Seq::empty()
    }
}

/// What the translator returns for a whole input string: the glyph of its
/// single character when the input is one character long, otherwise the
/// empty string.
pub open spec fn translate_of(s: Seq<char>) -> Seq<char> {
    if s.len() == 1 {
        glyph_of(s[0])
    } else {
        Seq::empty()
    }
}

/// The display form of one placement character, as a `String`.
pub fn glyph_string(c: char) -> (r: String)
    ensures
        r@ == glyph_of(c),
{
    let s: &str = if c == 'p' {
        "♟"
    } else if c == 'n' {
        "♞"
    } else if c == 'b' {
        "♝"
    } else if c == 'r' {
        "♜"
    } else if c == 'q' {
        "♛"
    } else if c == 'k' {
        "♚"
    } else if c == 'P' {
        "♙"
    } else if c == 'N' {
        "♘"
    } else if c == 'B' {
        "♗"
    } else if c == 'R' {
        "♖"
    } else if c == 'Q' {
        "♕"
    } else if c == 'K' {
        "♔"
    } else if c == '1' {
        "1"
    } else if c == '2' {
        "2"
    } else if c == '3' {
        "3"
    } else if c == '4' {
        "4"
    } else if c == '5' {
        "5"
    } else if c == '6' {
        "6"
    } else if c == '7' {
        "7"
    } else if c == '8' {
        "8"
    } else {
        ""
    };
    proof {
        reveal_strlit("♟");
        reveal_strlit("♞");
        reveal_strlit("♝");
        reveal_strlit("♜");
        reveal_strlit("♛");
        reveal_strlit("♚");
        reveal_strlit("♙");
        reveal_strlit("♘");
        reveal_strlit("♗");
        reveal_strlit("♖");
        reveal_strlit("♕");
        reveal_strlit("♔");
        reveal_strlit("1");
        reveal_strlit("2");
        reveal_strlit("3");
        reveal_strlit("4");
        reveal_strlit("5");
        reveal_strlit("6");
        reveal_strlit("7");
        reveal_strlit("8");
        reveal_strlit("");
        assert(s@ =~= glyph_of(c));
    }
    s.to_owned()
}

/// Translate one FEN placement token into its display form: the glyph of a
/// one-character input, the empty string for anything else.
pub fn translate_piece(x: &str) -> (r: String)
    ensures
        r@ == translate_of(x@),
{
    if x.unicode_len() == 1 {
        let c = x.get_char(0);
        glyph_string(c)
    } else {
        String::new()
    }
}

/// Every character outside the placement alphabet (the twelve piece letters
/// and the digits `1`-`8`) translates to the empty string.
pub proof fn lemma_unknown_char_gives_empty(c: char)
    requires
        !is_fen_digit(c),
        c != 'p' && c != 'n' && c != 'b' && c != 'r' && c != 'q' && c != 'k',
        c != 'P' && c != 'N' && c != 'B' && c != 'R' && c != 'Q' && c != 'K',
    ensures
        glyph_of(c) == Seq::<char>::empty(),
{
}

/// Every run-length digit translates to itself, a one-character string that
/// is not a glyph.
pub proof fn lemma_digit_translates_to_itself(c: char)
    requires
        is_fen_digit(c),
    ensures
        glyph_of(c) == seq![c],
        1 <= digit_value(c) <= 8,
{
}

} // verus!
