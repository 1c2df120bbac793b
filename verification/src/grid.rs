//! The terminal grid renderer.
//!
//! The 64 board cells are laid out as an 8-column, left-to-right text grid
//! with one space of padding between columns. The layout itself is done by
//! the `term_grid` crate; the library fills the grid cell by cell and takes
//! the finished text back as a `String`.

use vstd::prelude::*;

verus! {

#[verifier::external_type_specification]
#[verifier::external_body]
pub struct ExGrid(term_grid::Grid);

/// The cell texts a `term_grid::Grid` holds, in insertion order.
pub uninterp spec fn grid_cells(g: term_grid::Grid) -> Seq<Seq<char>>;

/// The grid was built with one space of filling and left-to-right
/// direction, the only options this library uses.
pub uninterp spec fn grid_spaces_ltr(g: term_grid::Grid) -> bool;

/// The text that an 8-column fit of cells laid out left to right with one
/// space of filling produces.
pub uninterp spec fn grid_layout(cells: Seq<Seq<char>>) -> Seq<char>;

/// The number of times `c` occurs in `s`.
pub open spec fn count_char(s: Seq<char>, c: char) -> nat
    decreases s.len(),
{
    if s.len() == 0 {
        0
    } else {
        (if s[0] == c {
            1nat
        } else {
            0nat
        }) + count_char(s.drop_first(), c)
    }
}

/// How many 8-cell rows a run of `n` cells occupies: `n / 8`, rounded up.
pub open spec fn rows_needed(n: int) -> int {
    if n % 8 == 0 {
        n / 8
    } else {
        n / 8 + 1
    }
}

/// None of the cells contains the character `c`.
pub open spec fn cells_free_of(cells: Seq<Seq<char>>, c: char) -> bool {
    forall|i: int|
        0 <= i < cells.len() ==> count_char(#[trigger] cells[i], c) == 0
}

/// Relies on `term_grid::Grid::new`: the new grid holds no cells, and the
/// options passed here are one space of filling, left to right.
#[verifier::external_body]
fn grid_new() -> (g: term_grid::Grid)
    ensures
        grid_cells(g) == Seq::<Seq<char>>::empty(),
        grid_spaces_ltr(g),
{
    term_grid::Grid::new(
        term_grid::GridOptions {
            filling: term_grid::Filling::Spaces(1),
            direction: term_grid::Direction::LeftToRight,
        },
    )
}

/// Relies on `term_grid::Grid::add`: it pushes one cell onto the grid's
/// cell vector and changes nothing else.
#[verifier::external_body]
fn grid_add(g: &mut term_grid::Grid, cell: String)
    ensures
        grid_cells(*final(g)) == grid_cells(*old(g)).push(cell@),
        grid_spaces_ltr(*final(g)) == grid_spaces_ltr(*old(g)),
{
    g.add(term_grid::Cell::from(cell));
}

/// Relies on `term_grid::Grid::fit_into_columns(8)` and its `Display`: with
/// left-to-right direction and spaces filling, the text is a function of
/// the cell contents alone; each of the `rows_needed` rows holds its eight
/// cells padded with spaces and ends in one newline, so when no cell
/// contains a newline the newline count equals the row count.
#[verifier::external_body]
fn grid_fit8(g: &term_grid::Grid) -> (r: String)
    requires
        grid_spaces_ltr(*g),
    ensures
        r@ == grid_layout(grid_cells(*g)),
        cells_free_of(grid_cells(*g), '\n') ==> count_char(r@, '\n') == rows_needed(
            grid_cells(*g).len() as int,
        ),
        grid_cells(*g).len() == 0 ==> r@ == Seq::<char>::empty(),
{
    format!("{}", g.fit_into_columns(8))
}

/// Lay the cells out as an 8-column text grid, left to right, one space of
/// filling between columns. Any 64-cell board therefore occupies exactly 8
/// rows of 8 cells, and in general a newline ends each of the
/// `rows_needed` rows.
pub fn render_grid(cells: &Vec<String>) -> (r: String)
    ensures
        r@ == grid_layout(cells.deep_view()),
        cells_free_of(cells.deep_view(), '\n') ==> count_char(r@, '\n') == rows_needed(
            cells.len() as int,
        ),
        cells.len() == 0 ==> r@ == Seq::<char>::empty(),
{
    let mut g = grid_new();
    let mut i: usize = 0;
    proof {
        assert(grid_cells(g) =~= cells.deep_view().take(0));
    }
    while i < cells.len()
        invariant
            0 <= i <= cells.len(),
            grid_cells(g) == cells.deep_view().take(i as int),
            grid_spaces_ltr(g),
        decreases cells.len() - i,
    {
        grid_add(&mut g, cells[i].clone());
        proof {
            assert(grid_cells(g) =~= cells.deep_view().take(i + 1));
        }
        i = i + 1;
    }
    proof {
        assert(cells.deep_view().take(cells.len() as int) =~= cells.deep_view());
    }
    grid_fit8(&g)
}

} // verus!
