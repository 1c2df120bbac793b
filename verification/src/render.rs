//! Decisions behind the graphical board renderer.
//!
//! Drawing itself happens outside the library; what is verified here is
//! everything the renderer decides per square: the checkerboard shade, the
//! file and rank labels on the board's edge, and how a cell's glyph is
//! painted (a white piece is drawn with the corresponding black glyph shape
//! filled white; a black piece with its own glyph filled black; an empty
//! cell with nothing). The render loop's dispatch is a small state
//! machine: each event maps to one action.

use vstd::prelude::*;

verus! {

/// The shade of one board square.
#[derive(PartialEq, Eq, Structural, Clone, Copy, Debug)]
pub enum SquareShade {
    Dark,
    Light,
}

/// The checkerboard: the top-left square (rank 8, file a) is light, shades
/// alternate along each rank, and the pattern flips from rank to rank.
pub open spec fn shade_of(row: int, col: int) -> SquareShade {
    if (row + col) % 2 == 0 {
        SquareShade::Light
    } else {
        SquareShade::Dark
    }
}

/// The shade of the square at `row` (0 = rank 8) and `col` (0 = file a).
pub fn square_shade(row: usize, col: usize) -> (s: SquareShade)
    requires
        row < 8,
        col < 8,
    ensures
        s == shade_of(row as int, col as int),
{
    if (row + col) % 2 == 0 {
        SquareShade::Light
    } else {
        SquareShade::Dark
    }
}

/// The file letter drawn under the bottom rank: `a` through `h`.
pub open spec fn file_char(col: int) -> char {
    if col == 0 {
        'a'
    } else if col == 1 {
        'b'
    } else if col == 2 {
        'c'
    } else if col == 3 {
        'd'
    } else if col == 4 {
        'e'
    } else if col == 5 {
        'f'
    } else if col == 6 {
        'g'
    } else {
        'h'
    }
}

/// The file letter for a column.
pub fn file_label(col: usize) -> (c: char)
    requires
        col < 8,
    ensures
        c == file_char(col as int),
{
    if col == 0 {
        'a'
    } else if col == 1 {
        'b'
    } else if col == 2 {
        'c'
    } else if col == 3 {
        'd'
    } else if col == 4 {
        'e'
    } else if col == 5 {
        'f'
    } else if col == 6 {
        'g'
    } else {
        'h'
    }
}

/// The rank digit drawn along the left file: `8` at the top row down to
/// `1` at the bottom row.
pub open spec fn rank_char(row: int) -> char {
    if row == 0 {
        '8'
    } else if row == 1 {
        '7'
    } else if row == 2 {
        '6'
    } else if row == 3 {
        '5'
    } else if row == 4 {
        '4'
    } else if row == 5 {
        '3'
    } else if row == 6 {
        '2'
    } else {
        '1'
    }
}

/// The rank digit for a row.
pub fn rank_label(row: usize) -> (c: char)
    requires
        row < 8,
    ensures
        c == rank_char(row as int),
{
    if row == 0 {
        '8'
    } else if row == 1 {
        '7'
    } else if row == 2 {
        '6'
    } else if row == 3 {
        '5'
    } else if row == 4 {
        '4'
    } else if row == 5 {
        '3'
    } else if row == 6 {
        '2'
    } else {
        '1'
    }
}

/// A cell glyph is one of the six white-piece symbols.
pub open spec fn is_white_glyph(s: Seq<char>) -> bool {
    s == seq!['♙'] || s == seq!['♘'] || s == seq!['♗'] || s == seq!['♖'] || s == seq!['♕']
        || s == seq!['♔']
}

/// A cell glyph is one of the six black-piece symbols.
pub open spec fn is_black_glyph(s: Seq<char>) -> bool {
    s == seq!['♟'] || s == seq!['♞'] || s == seq!['♝'] || s == seq!['♜'] || s == seq!['♛']
        || s == seq!['♚']
}

/// The black-piece glyph with the same shape as a white-piece glyph. The
/// renderer draws the black shape and fills it white, because the filled
/// variants render more evenly than the outline ones.
pub open spec fn black_counterpart(s: Seq<char>) -> Seq<char> {
    if s == seq!['♙'] {
        seq!['♟']
    } else if s == seq!['♘'] {
        seq!['♞']
    } else if s == seq!['♗'] {
        seq!['♝']
    } else if s == seq!['♖'] {
        seq!['♜']
    } else if s == seq!['♕'] {
        seq!['♛']
    } else {
        seq!['♚']
    }
}

/// The fill colour of one drawn glyph.
#[derive(PartialEq, Eq, Structural, Clone, Copy, Debug)]
pub enum PiecePaint {
    /// Pure white fill: the cell held a white piece.
    WhiteFill,
    /// Pure black fill: the cell held a black piece.
    BlackFill,
    /// Fully transparent: the cell was empty (or unrecognized), so the
    /// draw is invisible.
    Invisible,
}

/// What to draw for one board cell.
pub struct PieceDraw {
    /// The glyph handed to the font, always a black-piece shape or empty.
    pub shape: String,
    /// The fill colour.
    pub paint: PiecePaint,
}

/// Decide shape and fill for one cell glyph.
pub fn piece_draw(cell: &str) -> (r: PieceDraw)
    ensures
        is_white_glyph(cell@) ==> r.paint == PiecePaint::WhiteFill && r.shape@
            == black_counterpart(cell@),
        is_black_glyph(cell@) ==> r.paint == PiecePaint::BlackFill && r.shape@ == cell@,
        !is_white_glyph(cell@) && !is_black_glyph(cell@) ==> r.paint == PiecePaint::Invisible
            && r.shape@ == cell@,
{
    if cell.unicode_len() == 1 {
        let c = cell.get_char(0);
        proof {
            assert(cell@ =~= seq![cell@[0]]);
        }
        let white_shape: &str = if c == '♙' {
            "♟"
        } else if c == '♘' {
            "♞"
        } else if c == '♗' {
            "♝"
        } else if c == '♖' {
            "♜"
        } else if c == '♕' {
            "♛"
        } else if c == '♔' {
            "♚"
        } else {
            ""
        };
        proof {
            reveal_strlit("♟");
            reveal_strlit("♞");
            reveal_strlit("♝");
            reveal_strlit("♜");
            reveal_strlit("♛");
            reveal_strlit("♚");
            reveal_strlit("");
        }
        if !white_shape.is_empty() {
            PieceDraw { shape: white_shape.to_owned(), paint: PiecePaint::WhiteFill }
        } else if c == '♟' || c == '♞' || c == '♝' || c == '♜' || c == '♛' || c == '♚' {
            PieceDraw { shape: cell.to_owned(), paint: PiecePaint::BlackFill }
        } else {
            PieceDraw { shape: cell.to_owned(), paint: PiecePaint::Invisible }
        }
    } else {
        PieceDraw { shape: cell.to_owned(), paint: PiecePaint::Invisible }
    }
}

/// One event handed to the render loop by the windowing system.
#[derive(PartialEq, Eq, Structural, Clone, Copy, Debug)]
pub enum BoardEvent {
    /// The window asks for a frame.
    RenderRequested,
    /// The window offers an update tick.
    UpdateRequested,
    /// The window was closed.
    WindowClosed,
}

/// What the loop does in answer to one event.
#[derive(PartialEq, Eq, Structural, Clone, Copy, Debug)]
pub enum LoopAction {
    /// Draw the whole board once.
    DrawBoard,
    /// Do nothing: the update tick is reserved for future animation.
    Idle,
    /// Leave the loop; the process then ends.
    Stop,
}

/// The render loop's whole decision: draw on a render event, do nothing on
/// an update event, stop when the window closes.
pub fn loop_action(e: &BoardEvent) -> (a: LoopAction)
    ensures
        e == BoardEvent::RenderRequested ==> a == LoopAction::DrawBoard,
        e == BoardEvent::UpdateRequested ==> a == LoopAction::Idle,
        e == BoardEvent::WindowClosed ==> a == LoopAction::Stop,
{
    match e {
        BoardEvent::RenderRequested => LoopAction::DrawBoard,
        BoardEvent::UpdateRequested => LoopAction::Idle,
        BoardEvent::WindowClosed => LoopAction::Stop,
    }
}

} // verus!
