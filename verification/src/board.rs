//! The board model: an expansion of the FEN placement field into rows of
//! display-glyph cells.
//!
//! The placement field is cut on `/` into rank descriptions, ordered from
//! rank 8 down to rank 1. Each rank description expands character by
//! character: a run-length digit becomes that many empty cells, any other
//! character becomes one cell holding its display glyph (so a character
//! outside the alphabet becomes one empty-string cell). No check is made
//! that a rank accounts for exactly eight squares, or the board for 64
//! cells: a malformed placement yields a ragged board rather than an error.

use vstd::prelude::*;
use crate::pieces::{digit_value, glyph_of, glyph_string, is_fen_digit};
use crate::split::{split_on, split_slashes};

verus! {

/// A run of `n` empty cells.
pub open spec fn empty_cells(n: nat) -> Seq<Seq<char>> {
    Seq::new(n, |i: int| Seq::<char>::empty())
}

/// The cells one placement character stands for: `digit_value(c)` empty
/// cells for a run-length digit, one glyph cell for anything else.
pub open spec fn expand_char(c: char) -> Seq<Seq<char>> {
    if is_fen_digit(c) {
        empty_cells(digit_value(c) as nat)
    } else {
        seq![glyph_of(c)]
    }
}

/// The cells of one rank description, in order.
pub open spec fn expand_rank(r: Seq<char>) -> Seq<Seq<char>>
    decreases r.len(),
{
    if r.len() == 0 {
        Seq::<Seq<char>>::empty()
    } else {
        expand_char(r[0]) + expand_rank(r.drop_first())
    }
}

/// Each rank description expanded into its row of cells.
pub open spec fn rows_of(segs: Seq<Seq<char>>) -> Seq<Seq<Seq<char>>> {
    Seq::new(segs.len(), |i: int| expand_rank(segs[i]))
}

/// The whole board model: one row of cells per rank description.
pub open spec fn board_of(placement: Seq<char>) -> Seq<Seq<Seq<char>>> {
    rows_of(split_on(placement, '/'))
}

/// Expanding one more character appends its cells to the rank.
pub proof fn lemma_expand_rank_push(r: Seq<char>, c: char)
    ensures
        expand_rank(r.push(c)) == expand_rank(r) + expand_char(c),
    decreases r.len(),
{
    if r.len() == 0 {
        reveal_with_fuel(expand_rank, 3);
        assert(r.push(c).drop_first() =~= Seq::<char>::empty());
        assert(expand_rank(r.push(c)) =~= expand_rank(r) + expand_char(c));
    } else {
        assert(r.push(c).drop_first() =~= r.drop_first().push(c));
        lemma_expand_rank_push(r.drop_first(), c);
        assert(expand_rank(r.push(c)) =~= expand_rank(r) + expand_char(c));
    }
}

/// A run-length digit expands into exactly that many cells, all empty.
pub proof fn lemma_digit_expands_to_empty_cells(c: char)
    requires
        is_fen_digit(c),
    ensures
        expand_char(c).len() == digit_value(c),
        forall|i: int|
            0 <= i < expand_char(c).len() ==> expand_char(c)[i] == Seq::<char>::empty(),
{
}

/// The cells of one rank description.
pub fn expand_rank_cells(rank: &str) -> (cells: Vec<String>)
    ensures
        cells.deep_view() == expand_rank(rank@),
{
    let n = rank.unicode_len();
    let mut cells: Vec<String> = Vec::new();
    proof {
        assert(rank@.take(0) =~= Seq::<char>::empty());
        assert(cells.deep_view() =~= expand_rank(rank@.take(0)));
    }
    let mut i: usize = 0;
    while i < n
        invariant
            n == rank@.len(),
            0 <= i <= n,
            cells.deep_view() == expand_rank(rank@.take(i as int)),
        decreases n - i,
    {
        let c = rank.get_char(i);
        proof {
            assert(rank@.take(i + 1) =~= rank@.take(i as int).push(rank@[i as int]));
            lemma_expand_rank_push(rank@.take(i as int), c);
        }
        if '1' <= c && c <= '8' {
            let count: usize = (c as usize) - ('0' as usize);
            let mut k: usize = 0;
            while k < count
                invariant
                    0 <= k <= count,
                    count == digit_value(c),
                    is_fen_digit(c),
                    cells.deep_view() == expand_rank(rank@.take(i as int)) + empty_cells(
                        k as nat,
                    ),
                decreases count - k,
            {
                cells.push(String::new());
                proof {
                    let pre = expand_rank(rank@.take(i as int));
                    assert(pre + empty_cells((k + 1) as nat) =~= (pre + empty_cells(
                        k as nat,
                    )).push(Seq::<char>::empty()));
                    assert(cells.deep_view() =~= (pre + empty_cells(k as nat)).push(
                        Seq::<char>::empty(),
                    ));
                }
                k = k + 1;
            }
            proof {
                assert(empty_cells(count as nat) =~= expand_char(c));
                assert(cells.deep_view() =~= expand_rank(rank@.take(i + 1)));
            }
        } else {
            let glyph = glyph_string(c);
            cells.push(glyph);
            proof {
                assert(expand_char(c) =~= seq![glyph_of(c)]);
                assert(cells.deep_view() =~= expand_rank(rank@.take(i + 1)));
            }
        }
        i = i + 1;
    }
    proof {
        assert(rank@.take(n as int) =~= rank@);
    }
    cells
}

/// Build the board model for a placement field: one row of glyph cells per
/// `/`-separated rank description, rank 8 first.
pub fn build_board(placement: &str) -> (board: Vec<Vec<String>>)
    ensures
        board.deep_view() == board_of(placement@),
        board.len() >= 1,
{
    let ranks = split_slashes(placement);
    let mut board: Vec<Vec<String>> = Vec::new();
    let ghost segs = split_on(placement@, '/');
    let mut i: usize = 0;
    while i < ranks.len()
        invariant
            segs == split_on(placement@, '/'),
            ranks.deep_view() == segs,
            0 <= i <= ranks.len(),
            board.deep_view() == rows_of(segs.take(i as int)),
        decreases ranks.len() - i,
    {
        let row = expand_rank_cells(ranks[i].as_str());
        board.push(row);
        proof {
            assert(ranks[i as int]@ == segs[i as int]);
            assert(rows_of(segs.take(i + 1)) =~= rows_of(segs.take(i as int)).push(
                expand_rank(segs[i as int]),
            ));
            assert(board.deep_view() =~= rows_of(segs.take(i as int)).push(
                expand_rank(segs[i as int]),
            ));
        }
        i = i + 1;
    }
    proof {
        assert(segs.take(ranks.len() as int) =~= segs);
        assert(rows_of(segs.take(ranks.len() as int)) =~~= board_of(placement@));
    }
    board
}

/// The rows of the board laid end to end: the flat, row-major cell list
/// that the grid renderer consumes.
pub fn flatten_board(board: &Vec<Vec<String>>) -> (cells: Vec<String>)
    ensures
        cells.deep_view() == board.deep_view().flatten(),
{
    let mut cells: Vec<String> = Vec::new();
    let mut i: usize = 0;
    proof {
        assert(board.deep_view().take(0) =~= Seq::<Seq<Seq<char>>>::empty());
        vstd::seq_lib::lemma_flatten_concat(
            Seq::<Seq<Seq<char>>>::empty(),
            Seq::<Seq<Seq<char>>>::empty(),
        );
        assert(cells.deep_view() =~= board.deep_view().take(0).flatten());
    }
    while i < board.len()
        invariant
            0 <= i <= board.len(),
            cells.deep_view() == board.deep_view().take(i as int).flatten(),
        decreases board.len() - i,
    {
        let row = &board[i];
        let mut j: usize = 0;
        while j < row.len()
            invariant
                0 <= i < board.len(),
                0 <= j <= row.len(),
                row == &board[i as int],
                cells.deep_view() == board.deep_view().take(i as int).flatten() + row.deep_view()
                    .take(j as int),
            decreases row.len() - j,
        {
            cells.push(row[j].clone());
            proof {
                let pre = board.deep_view().take(i as int).flatten();
                assert(pre + row.deep_view().take(j + 1) =~= (pre + row.deep_view().take(
                    j as int,
                )).push(row@[j as int]@));
                assert(cells.deep_view() =~= (pre + row.deep_view().take(j as int)).push(
                    row@[j as int]@,
                ));
            }
            j = j + 1;
        }
        proof {
            let pre = board.deep_view().take(i as int);
            let rv = board[i as int].deep_view();
            assert(row.deep_view().take(row.len() as int) =~= rv);
            pre.lemma_flatten_push(rv);
            assert(board.deep_view().take(i + 1) =~= pre.push(rv));
            assert(cells.deep_view() =~= board.deep_view().take(i + 1).flatten());
        }
        i = i + 1;
    }
    proof {
        assert(board.deep_view().take(board.len() as int) =~= board.deep_view());
    }
    cells
}

} // verus!
