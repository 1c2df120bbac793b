//! The whole inspection pipeline, run once per FEN string.
//!
//! The FEN is split into its whitespace-separated fields; the fields are
//! checked; the placement field is expanded into the board model; the
//! board is laid out as the terminal grid text. The outcome carries the
//! exact diagnostic lines for standard output and standard error, the
//! fatal flag (a FEN with no fields, or a placement character outside its
//! alphabet, ends the process with status 1), the board model and the grid
//! text.

use vstd::prelude::*;
use crate::board::{board_of, build_board, flatten_board};
use crate::grid::{grid_layout, render_grid};
use crate::split::{is_fen_whitespace, lemma_all_whitespace_no_tokens, split_whitespace_fields, split_ws};
use crate::validate::{
    castling_report_of, classify_active_color, en_passant_is_dash, inspect_castling,
    placement_field_ok, placement_legal, ActiveColor,
};

verus! {

/// The two warning lines printed when the FEN does not have six fields.
pub open spec fn count_warning_lines(n: int) -> Seq<Seq<char>> {
    if n != 6 {
        seq![
            "Error: FEN does not contain 6 elements"@,
            "Example FEN: rnbqkbnr/pppppppp/8/8/8/8/PPPPPPPP/RNBQKBNR w KQkq - 0 1"@,
        ]
    } else {
        Seq::<Seq<char>>::empty()
    }
}

/// The line that reports an illegal placement character, naming the field.
pub open spec fn placement_error_line(f: Seq<char>) -> Seq<char> {
    "Error: Unexpected symbol in layout string "@ + f
}

/// The stdout line for the active-color field, when there is one.
pub open spec fn color_info_lines(f: Seq<char>) -> Seq<Seq<char>> {
    if f == seq!['w'] {
        seq!["White to move"@]
    } else if f == seq!['b'] {
        seq!["Black to move"@]
    } else {
        Seq::<Seq<char>>::empty()
    }
}

/// The stderr line for an unrecognized active-color field.
pub open spec fn color_error_lines(f: Seq<char>) -> Seq<Seq<char>> {
    if f == seq!['w'] || f == seq!['b'] {
        Seq::<Seq<char>>::empty()
    } else {
        seq!["Error: Expected 'w' or 'b' in second element"@]
    }
}

/// The stdout lines for the castling-rights field: either the single
/// no-rights line, or one line per right present, in the fixed order
/// White kingside, White queenside, Black kingside, Black queenside.
pub open spec fn castling_info_lines(f: Seq<char>) -> Seq<Seq<char>> {
    let rep = castling_report_of(f);
    if rep.no_rights {
        seq!["Neither side can castle"@]
    } else {
        (if rep.white_kingside {
            seq!["White can castle kingside"@]
        } else {
            Seq::<Seq<char>>::empty()
        }) + (if rep.white_queenside {
            seq!["White can castle queenside"@]
        } else {
            Seq::<Seq<char>>::empty()
        }) + (if rep.black_kingside {
            seq!["Black can castle kingside"@]
        } else {
            Seq::<Seq<char>>::empty()
        }) + (if rep.black_queenside {
            seq!["Black can castle queenside"@]
        } else {
            Seq::<Seq<char>>::empty()
        })
    }
}

/// The stderr lines for the castling-rights field: one if no meaningful
/// character occurs, one more if a meaningless one does.
pub open spec fn castling_error_lines(f: Seq<char>) -> Seq<Seq<char>> {
    let rep = castling_report_of(f);
    (if !rep.any_marker {
        seq!["Error: Expected one or more of [KQkq-] in third element to denote castling rights"@]
    } else {
        Seq::<Seq<char>>::empty()
    }) + (if !rep.all_markers {
        seq!["Error: Unexpected symbol in third element (castling rights)"@]
    } else {
        Seq::<Seq<char>>::empty()
    })
}

/// The stdout line for the en-passant field.
pub open spec fn en_passant_line(f: Seq<char>) -> Seq<char> {
    if f == seq!['-'] {
        "No en-passant target square is available"@
    } else {
        "En-passant target square is "@ + f
    }
}

/// The run ends with exit status 1: the FEN has no fields at all, or its
/// placement field holds an illegal character.
pub open spec fn fen_fatal(fields: Seq<Seq<char>>) -> bool {
    fields.len() == 0 || !placement_legal(fields[0])
}

/// Every line the run prints to standard output before the grid, in
/// order. A fatal run prints none.
pub open spec fn info_lines_of(fields: Seq<Seq<char>>, info: bool) -> Seq<Seq<char>> {
    if fen_fatal(fields) {
        Seq::<Seq<char>>::empty()
    } else {
        (if fields.len() > 1 && info {
            color_info_lines(fields[1])
        } else {
            Seq::<Seq<char>>::empty()
        }) + (if fields.len() > 2 && info {
            castling_info_lines(fields[2])
        } else {
            Seq::<Seq<char>>::empty()
        }) + (if fields.len() > 3 && info {
            seq![en_passant_line(fields[3])]
        } else {
            Seq::<Seq<char>>::empty()
        })
    }
}

/// Every line the run prints to standard error, in order.
pub open spec fn error_lines_of(fields: Seq<Seq<char>>, info: bool) -> Seq<Seq<char>> {
    count_warning_lines(fields.len() as int) + (if fields.len() == 0 {
        Seq::<Seq<char>>::empty()
    } else if !placement_legal(fields[0]) {
        seq![placement_error_line(fields[0])]
    } else {
        (if fields.len() > 1 && info {
            color_error_lines(fields[1])
        } else {
            Seq::<Seq<char>>::empty()
        }) + (if fields.len() > 2 {
            castling_error_lines(fields[2])
        } else {
            Seq::<Seq<char>>::empty()
        })
    })
}

/// Everything one run produces.
pub struct FenOutcome {
    /// The run is fatal: the process exits with status 1 and prints no
    /// board.
    pub fatal: bool,
    /// The diagnostic lines for standard output, in order.
    pub info_lines: Vec<String>,
    /// The diagnostic lines for standard error, in order.
    pub error_lines: Vec<String>,
    /// The board model, one row per rank description; empty on a fatal
    /// run.
    pub board: Vec<Vec<String>>,
    /// The terminal grid text; empty on a fatal run.
    pub grid_text: String,
}

/// What `run_pipeline` promises of its outcome: every component is a
/// function of the FEN text and the info flag alone.
pub open spec fn outcome_ok(r: FenOutcome, fen: Seq<char>, info: bool) -> bool {
    let fields = split_ws(fen);
    &&& r.fatal == fen_fatal(fields)
    &&& r.info_lines.deep_view() == info_lines_of(fields, info)
    &&& r.error_lines.deep_view() == error_lines_of(fields, info)
    &&& (!fen_fatal(fields) ==> r.board.deep_view() == board_of(fields[0]))
    &&& (fen_fatal(fields) ==> r.board.deep_view() == Seq::<Seq<Seq<char>>>::empty())
    &&& (!fen_fatal(fields) ==> r.grid_text@ == grid_layout(board_of(fields[0]).flatten()))
    &&& (fen_fatal(fields) ==> r.grid_text@ == Seq::<char>::empty())
}

/// Append one diagnostic line.
fn push_line(lines: &mut Vec<String>, line: &str)
    ensures
        final(lines).deep_view() == old(lines).deep_view().push(line@),
{
    lines.push(line.to_owned());
    proof {
        assert(lines.deep_view() =~= old(lines).deep_view().push(line@));
    }
}

/// Run the whole pipeline on one FEN string.
///
/// The outcome's every component is pinned by `outcome_ok`, so two runs on
/// the same FEN with the same flag produce identical text.
#[verifier::rlimit(60)]
pub fn run_pipeline(fen: &str, info: bool) -> (r: FenOutcome)
    ensures
        outcome_ok(r, fen@, info),
{
    let ghost gfields = split_ws(fen@);
    let fields = split_whitespace_fields(fen);
    proof {
        assert(fields.deep_view() == gfields);
        assert(fields@.len() == gfields.len());
    }
    let mut info_lines: Vec<String> = Vec::new();
    let mut error_lines: Vec<String> = Vec::new();
    if fields.len() != 6 {
        push_line(&mut error_lines, "Error: FEN does not contain 6 elements");
        push_line(
            &mut error_lines,
            "Example FEN: rnbqkbnr/pppppppp/8/8/8/8/PPPPPPPP/RNBQKBNR w KQkq - 0 1",
        );
    }
    proof {
        assert(error_lines.deep_view() =~= count_warning_lines(gfields.len() as int));
    }
    if fields.len() == 0 {
        let r = FenOutcome {
            fatal: true,
            info_lines,
            error_lines,
            board: Vec::new(),
            grid_text: String::new(),
        };
        proof {
            assert(r.info_lines.deep_view() =~= info_lines_of(gfields, info));
            assert(r.error_lines.deep_view() =~= error_lines_of(gfields, info));
            assert(r.board.deep_view() =~= Seq::<Seq<Seq<char>>>::empty());
        }
        return r;
    }
    proof {
        assert(fields[0]@ == gfields[0]);
    }
    if !placement_field_ok(fields[0].as_str()) {
        let line = "Error: Unexpected symbol in layout string ".to_owned().concat(
            fields[0].as_str(),
        );
        error_lines.push(line);
        let r = FenOutcome {
            fatal: true,
            info_lines,
            error_lines,
            board: Vec::new(),
            grid_text: String::new(),
        };
        proof {
            assert(r.info_lines.deep_view() =~= info_lines_of(gfields, info));
            assert(r.error_lines.deep_view() =~= count_warning_lines(
                gfields.len() as int,
            ).push(placement_error_line(gfields[0])));
            assert(error_lines_of(gfields, info) =~= count_warning_lines(
                gfields.len() as int,
            ).push(placement_error_line(gfields[0])));
            assert(r.board.deep_view() =~= Seq::<Seq<Seq<char>>>::empty());
        }
        return r;
    }
    let ghost err_pre0 = error_lines.deep_view();
    let ghost color_info = if gfields.len() > 1 && info {
        color_info_lines(gfields[1])
    } else {
        Seq::<Seq<char>>::empty()
    };
    let ghost color_err = if gfields.len() > 1 && info {
        color_error_lines(gfields[1])
    } else {
        Seq::<Seq<char>>::empty()
    };
    if fields.len() > 1 && info {
        proof {
            assert(fields[1]@ == gfields[1]);
        }
        match classify_active_color(fields[1].as_str()) {
            ActiveColor::White => push_line(&mut info_lines, "White to move"),
            ActiveColor::Black => push_line(&mut info_lines, "Black to move"),
            ActiveColor::Unrecognized => push_line(
                &mut error_lines,
                "Error: Expected 'w' or 'b' in second element",
            ),
        }
    }
    proof {
        assert(info_lines.deep_view() =~= color_info);
        assert(error_lines.deep_view() =~= err_pre0 + color_err);
    }
    let ghost castle_info = if gfields.len() > 2 && info {
        castling_info_lines(gfields[2])
    } else {
        Seq::<Seq<char>>::empty()
    };
    let ghost castle_err = if gfields.len() > 2 {
        castling_error_lines(gfields[2])
    } else {
        Seq::<Seq<char>>::empty()
    };
    if fields.len() > 2 {
        proof {
            assert(fields[2]@ == gfields[2]);
        }
        let rep = inspect_castling(fields[2].as_str());
        if info {
            if rep.no_rights {
                push_line(&mut info_lines, "Neither side can castle");
            } else {
                if rep.white_kingside {
                    push_line(&mut info_lines, "White can castle kingside");
                }
                if rep.white_queenside {
                    push_line(&mut info_lines, "White can castle queenside");
                }
                if rep.black_kingside {
                    push_line(&mut info_lines, "Black can castle kingside");
                }
                if rep.black_queenside {
                    push_line(&mut info_lines, "Black can castle queenside");
                }
            }
        }
        if !rep.any_marker {
            push_line(
                &mut error_lines,
                "Error: Expected one or more of [KQkq-] in third element to denote castling rights",
            );
        }
        if !rep.all_markers {
            push_line(
                &mut error_lines,
                "Error: Unexpected symbol in third element (castling rights)",
            );
        }
    }
    proof {
        assert(info_lines.deep_view() =~= color_info + castle_info);
        assert(error_lines.deep_view() =~= err_pre0 + color_err + castle_err);
    }
    let ghost ep_info = if gfields.len() > 3 && info {
        seq![en_passant_line(gfields[3])]
    } else {
        Seq::<Seq<char>>::empty()
    };
    if fields.len() > 3 && info {
        proof {
            assert(fields[3]@ == gfields[3]);
        }
        if en_passant_is_dash(fields[3].as_str()) {
            push_line(&mut info_lines, "No en-passant target square is available");
        } else {
            let line = "En-passant target square is ".to_owned().concat(fields[3].as_str());
            info_lines.push(line);
        }
    }
    proof {
        assert(info_lines.deep_view() =~= color_info + castle_info + ep_info);
        assert(info_lines.deep_view() =~= info_lines_of(gfields, info));
        assert(error_lines.deep_view() =~= error_lines_of(gfields, info));
    }
    let board = build_board(fields[0].as_str());
    let cells = flatten_board(&board);
    let grid_text = render_grid(&cells);
    FenOutcome { fatal: false, info_lines, error_lines, board, grid_text }
}

/// A placement field with a character outside its alphabet is fatal, and
/// standard error carries a line naming the offending field.
pub proof fn lemma_illegal_placement_is_fatal(fields: Seq<Seq<char>>, info: bool)
    requires
        fields.len() >= 1,
        !placement_legal(fields[0]),
    ensures
        fen_fatal(fields),
        error_lines_of(fields, info).contains(placement_error_line(fields[0])),
{
    let cw = count_warning_lines(fields.len() as int);
    assert(error_lines_of(fields, info)[cw.len() as int] == placement_error_line(fields[0]));
}

/// A FEN with at least one but fewer than six fields is not fatal, as long
/// as its placement field is legal; the run only warns, with the two
/// field-count lines first on standard error.
pub proof fn lemma_short_fen_warns_but_continues(fields: Seq<Seq<char>>, info: bool)
    requires
        1 <= fields.len() < 6,
        placement_legal(fields[0]),
    ensures
        !fen_fatal(fields),
        error_lines_of(fields, info)[0] == "Error: FEN does not contain 6 elements"@,
        error_lines_of(
            fields,
            info,
        )[1] == "Example FEN: rnbqkbnr/pppppppp/8/8/8/8/PPPPPPPP/RNBQKBNR w KQkq - 0 1"@,
{
}

/// An empty FEN string splits into no fields at all, and that is fatal.
pub proof fn lemma_empty_fen_is_fatal()
    ensures
        split_ws(Seq::<char>::empty()).len() == 0,
        fen_fatal(split_ws(Seq::<char>::empty())),
{
}

/// More generally, a FEN of nothing but whitespace has no fields, and the
/// run on it is fatal.
pub proof fn lemma_blank_fen_is_fatal(fen: Seq<char>)
    requires
        forall|i: int| 0 <= i < fen.len() ==> is_fen_whitespace(#[trigger] fen[i]),
    ensures
        split_ws(fen).len() == 0,
        fen_fatal(split_ws(fen)),
{
    lemma_all_whitespace_no_tokens(fen);
}

/// A castling field of `-` yields exactly the single no-rights line and
/// none of the four per-side lines.
pub proof fn lemma_castling_dash_single_line()
    ensures
        castling_info_lines(seq!['-']) == seq!["Neither side can castle"@],
        !castling_info_lines(seq!['-']).contains("White can castle kingside"@),
        !castling_info_lines(seq!['-']).contains("White can castle queenside"@),
        !castling_info_lines(seq!['-']).contains("Black can castle kingside"@),
        !castling_info_lines(seq!['-']).contains("Black can castle queenside"@),
{
    assert(castling_info_lines(seq!['-']) =~= seq!["Neither side can castle"@]);
    reveal_strlit("Neither side can castle");
    reveal_strlit("White can castle kingside");
    reveal_strlit("White can castle queenside");
    reveal_strlit("Black can castle kingside");
    reveal_strlit("Black can castle queenside");
    assert("Neither side can castle"@[0] == 'N');
    assert("White can castle kingside"@[0] == 'W');
    assert("White can castle queenside"@[0] == 'W');
    assert("Black can castle kingside"@[0] == 'B');
    assert("Black can castle queenside"@[0] == 'B');
}

/// A castling field of `KQ` yields both White lines, in order, and
/// neither Black line.
pub proof fn lemma_castling_kq_lines()
    ensures
        castling_info_lines(seq!['K', 'Q']) == seq![
            "White can castle kingside"@,
            "White can castle queenside"@,
        ],
        !castling_info_lines(seq!['K', 'Q']).contains("Black can castle kingside"@),
        !castling_info_lines(seq!['K', 'Q']).contains("Black can castle queenside"@),
{
    let f = seq!['K', 'Q'];
    let rep = castling_report_of(f);
    assert(f[0] == 'K');
    assert(f[1] == 'Q');
    assert(rep.white_kingside);
    assert(rep.white_queenside);
    assert(!rep.black_kingside);
    assert(!rep.black_queenside);
    assert(f != seq!['-']);
    assert(castling_info_lines(f) =~= seq![
        "White can castle kingside"@,
        "White can castle queenside"@,
    ]);
    reveal_strlit("White can castle kingside");
    reveal_strlit("White can castle queenside");
    reveal_strlit("Black can castle kingside");
    reveal_strlit("Black can castle queenside");
    assert("White can castle kingside"@[0] == 'W');
    assert("White can castle queenside"@[0] == 'W');
    assert("Black can castle kingside"@[0] == 'B');
    assert("Black can castle queenside"@[0] == 'B');
    assert("White can castle kingside"@ != "Black can castle kingside"@);
    assert("White can castle queenside"@ != "Black can castle queenside"@);
    assert("White can castle kingside"@ != "Black can castle queenside"@);
    assert("White can castle queenside"@ != "Black can castle kingside"@);
}

/// Two runs on the same FEN with the same flag agree in every modeled
/// component: the pipeline holds no hidden state.
pub proof fn lemma_pipeline_deterministic(a: FenOutcome, b: FenOutcome, fen: Seq<char>, info: bool)
    requires
        outcome_ok(a, fen, info),
        outcome_ok(b, fen, info),
    ensures
        a.fatal == b.fatal,
        a.info_lines.deep_view() == b.info_lines.deep_view(),
        a.error_lines.deep_view() == b.error_lines.deep_view(),
        a.board.deep_view() == b.board.deep_view(),
        a.grid_text@ == b.grid_text@,
{
}

} // verus!
