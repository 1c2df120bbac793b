//! Structural checks on the FEN fields.
//!
//! The checks are best-effort, as the tool's diagnostics are: only two
//! conditions are fatal (a FEN with no fields at all, and a placement field
//! with a character outside its alphabet). Everything else is advisory.

use vstd::prelude::*;
use crate::pieces::is_fen_digit;

verus! {

/// A character the placement field may contain: the twelve piece letters,
/// the run-length digits `1`-`8`, and the rank separator `/`.
pub open spec fn is_legal_placement_char(c: char) -> bool {
    c == 'K' || c == 'Q' || c == 'B' || c == 'N' || c == 'R' || c == 'P' || c == 'k' || c == 'q'
        || c == 'b' || c == 'n' || c == 'r' || c == 'p' || is_fen_digit(c) || c == '/'
}

/// Every character of the placement field is legal.
pub open spec fn placement_legal(f: Seq<char>) -> bool {
    forall|i: int| 0 <= i < f.len() ==> is_legal_placement_char(#[trigger] f[i])
}

/// Check the placement field against its alphabet.
pub fn placement_field_ok(field: &str) -> (b: bool)
    ensures
        b == placement_legal(field@),
{
    let n = field.unicode_len();
    let mut i: usize = 0;
    while i < n
        invariant
            n == field@.len(),
            0 <= i <= n,
            forall|j: int| 0 <= j < i ==> is_legal_placement_char(#[trigger] field@[j]),
        decreases n - i,
    {
        let c = field.get_char(i);
        let ok = c == 'K' || c == 'Q' || c == 'B' || c == 'N' || c == 'R' || c == 'P' || c == 'k'
            || c == 'q' || c == 'b' || c == 'n' || c == 'r' || c == 'p' || ('1' <= c && c <= '8')
            || c == '/';
        if !ok {
            return false;
        }
        i = i + 1;
    }
    true
}

/// The active-color field, as read from the second FEN field.
#[derive(PartialEq, Eq, Structural, Clone, Copy, Debug)]
pub enum ActiveColor {
    White,
    Black,
    Unrecognized,
}

/// What the second field says: `w` for White, `b` for Black, anything else
/// is unrecognized and only reported, never fatal.
pub open spec fn active_color_of(f: Seq<char>) -> ActiveColor {
    if f == seq!['w'] {
        ActiveColor::White
    } else if f == seq!['b'] {
        ActiveColor::Black
    } else {
        ActiveColor::Unrecognized
    }
}

/// The field is exactly the one-character string `c`.
fn is_single_char(field: &str, c: char) -> (b: bool)
    ensures
        b == (field@ == seq![c]),
{
    if field.unicode_len() == 1 {
        let got = field.get_char(0);
        proof {
            assert(field@ =~= seq![field@[0]]);
        }
        got == c
    } else {
        false
    }
}

/// Classify the active-color field.
pub fn classify_active_color(field: &str) -> (r: ActiveColor)
    ensures
        r == active_color_of(field@),
{
    if is_single_char(field, 'w') {
        ActiveColor::White
    } else if is_single_char(field, 'b') {
        ActiveColor::Black
    } else {
        ActiveColor::Unrecognized
    }
}

/// A character with a meaning in the castling-rights field: `-` for no
/// rights, or one of `K`, `Q`, `k`, `q`.
pub open spec fn is_castling_marker(c: char) -> bool {
    c == '-' || c == 'K' || c == 'Q' || c == 'k' || c == 'q'
}

/// The string contains the character `c`.
pub open spec fn seq_has_char(f: Seq<char>, c: char) -> bool {
    exists|i: int| 0 <= i < f.len() && #[trigger] f[i] == c
}

/// What the castling-rights field holds, read off character by character.
pub struct CastlingReport {
    /// The field is exactly `-`: neither side can castle.
    pub no_rights: bool,
    /// The field contains `K`: White can castle kingside.
    pub white_kingside: bool,
    /// The field contains `Q`: White can castle queenside.
    pub white_queenside: bool,
    /// The field contains `k`: Black can castle kingside.
    pub black_kingside: bool,
    /// The field contains `q`: Black can castle queenside.
    pub black_queenside: bool,
    /// The field contains at least one meaningful character.
    pub any_marker: bool,
    /// Every character of the field is meaningful.
    pub all_markers: bool,
}

/// The report a well-read castling field yields.
pub open spec fn castling_report_of(f: Seq<char>) -> CastlingReport {
    CastlingReport {
        no_rights: f == seq!['-'],
        white_kingside: seq_has_char(f, 'K'),
        white_queenside: seq_has_char(f, 'Q'),
        black_kingside: seq_has_char(f, 'k'),
        black_queenside: seq_has_char(f, 'q'),
        any_marker: exists|i: int| 0 <= i < f.len() && is_castling_marker(#[trigger] f[i]),
        all_markers: forall|i: int| 0 <= i < f.len() ==> is_castling_marker(#[trigger] f[i]),
    }
}

/// Read the castling-rights field.
pub fn inspect_castling(field: &str) -> (r: CastlingReport)
    ensures
        r == castling_report_of(field@),
{
    let n = field.unicode_len();
    let mut white_kingside = false;
    let mut white_queenside = false;
    let mut black_kingside = false;
    let mut black_queenside = false;
    let mut any_marker = false;
    let mut all_markers = true;
    let mut i: usize = 0;
    while i < n
        invariant
            n == field@.len(),
            0 <= i <= n,
            white_kingside == seq_has_char(field@.take(i as int), 'K'),
            white_queenside == seq_has_char(field@.take(i as int), 'Q'),
            black_kingside == seq_has_char(field@.take(i as int), 'k'),
            black_queenside == seq_has_char(field@.take(i as int), 'q'),
            any_marker == exists|j: int| 0 <= j < i && is_castling_marker(#[trigger] field@[j]),
            all_markers == forall|j: int| 0 <= j < i ==> is_castling_marker(#[trigger] field@[j]),
        decreases n - i,
    {
        let c = field.get_char(i);
        proof {
            assert(field@.take(i + 1) =~= field@.take(i as int).push(field@[i as int]));
            let fi = field@[i as int];
            assert(forall|x: char|
                seq_has_char(field@.take(i + 1), x) == (seq_has_char(field@.take(i as int), x)
                    || fi == x)) by {
                assert(forall|x: char| #![auto]
                    seq_has_char(field@.take(i as int), x) ==> seq_has_char(
                        field@.take(i + 1),
                        x,
                    ));
                assert(field@.take(i + 1)[i as int] == fi);
            }
        }
        if c == 'K' {
            white_kingside = true;
        }
        if c == 'Q' {
            white_queenside = true;
        }
        if c == 'k' {
            black_kingside = true;
        }
        if c == 'q' {
            black_queenside = true;
        }
        if c == '-' || c == 'K' || c == 'Q' || c == 'k' || c == 'q' {
            any_marker = true;
        } else {
            all_markers = false;
        }
        i = i + 1;
    }
    proof {
        assert(field@.take(n as int) =~= field@);
    }
    let no_rights = is_single_char(field, '-');
    CastlingReport {
        no_rights,
        white_kingside,
        white_queenside,
        black_kingside,
        black_queenside,
        any_marker,
        all_markers,
    }
}

/// The en-passant field names no target square.
pub fn en_passant_is_dash(field: &str) -> (b: bool)
    ensures
        b == (field@ == seq!['-']),
{
    is_single_char(field, '-')
}

} // verus!
