//! The layout choices that widgets make, and the whole-number part of their
//! measurements: how many grid rows and columns, how many gaps.
use vstd::prelude::*;

verus! {

/// The main axis of a flex container.
#[derive(Debug, Clone, Copy, PartialEq, Eq, Structural)]
pub enum FlexDirection {
    Horizontal,
    Vertical,
}

/// How children are placed along the main axis.
#[derive(Debug, Clone, Copy, PartialEq, Eq, Structural)]
pub enum MainAxisAlignment {
    Start,
    Center,
    End,
    SpaceBetween,
    SpaceAround,
    SpaceEvenly,
}

/// How children are placed across the main axis.
#[derive(Debug, Clone, Copy, PartialEq, Eq, Structural)]
pub enum CrossAxisAlignment {
    Start,
    Center,
    End,
    Stretch,
}

/// The axes along which a scroll view moves.
#[derive(Debug, Clone, Copy, PartialEq, Eq, Structural)]
pub enum ScrollDirection {
    Vertical,
    Horizontal,
    Both,
}

impl ScrollDirection {
    /// Whether a scroll in this direction keeps the horizontal part of a pan.
    pub fn scrolls_horizontally(&self) -> (r: bool)
        ensures
            r == (*self != ScrollDirection::Vertical),
    {
        match self {
            ScrollDirection::Vertical => false,
            ScrollDirection::Horizontal => true,
            ScrollDirection::Both => true,
        }
    }

    /// Whether a scroll in this direction keeps the vertical part of a pan.
    pub fn scrolls_vertically(&self) -> (r: bool)
        ensures
            r == (*self != ScrollDirection::Horizontal),
    {
        match self {
            ScrollDirection::Vertical => true,
            ScrollDirection::Horizontal => false,
            ScrollDirection::Both => true,
        }
    }
}

/// How an image fills the space it is given.
#[derive(Debug, Clone, Copy, PartialEq, Eq, Structural)]
pub enum ImageFit {
    /// Drawn at its own size.
    Unscaled,
    Contain,
    Cover,
    Fill,
    FitWidth,
    FitHeight,
}

/// How an image is blended with what lies beneath it.
#[derive(Debug, Clone, Copy, PartialEq, Eq, Structural)]
pub enum BlendMode {
    Normal,
    Multiply,
    Screen,
    Overlay,
    Darken,
    Lighten,
}

/// The weight of a font.
#[derive(Debug, Clone, Copy, PartialEq, Eq, Structural)]
pub enum FontWeight {
    Normal,
    Bold,
}

impl Default for FontWeight {
    /// Normal weight.
    fn default() -> (r: Self)
        ensures
            r == FontWeight::Normal,
    {
        FontWeight::Normal
    }
}

/// The number of gaps between `children` laid out in a line: one fewer than
/// the children, and none for no child.
pub fn gap_count(children: usize) -> (gaps: usize)
    ensures
        gaps == if children == 0 { 0 } else { children - 1 },
{
    children.saturating_sub(1)
}

/// The number of columns of a grid asked for `requested`: at least one.
pub fn grid_columns(requested: usize) -> (columns: usize)
    ensures
        columns == if requested == 0 { 1 } else { requested },
{
    if requested == 0 {
        1
    } else {
        requested
    }
}

/// The row in which the grid cell `index` stands.
pub fn grid_row_of(index: usize, columns: usize) -> (row: usize)
    requires
        columns > 0,
    ensures
        row == index / columns,
        row * columns <= index < row * columns + columns,
{
    let row = index / columns;
    proof {
        vstd::arithmetic::div_mod::lemma_fundamental_div_mod(index as int, columns as int);
        assert(0 <= index % columns < columns);
        assert(row * columns == columns * row) by (nonlinear_arith);
    }
    row
}

/// The number of rows that `children` cells fill in a grid of `columns`
/// columns: the fewest rows that hold them all.
pub fn grid_rows(children: usize, columns: usize) -> (rows: usize)
    requires
        columns > 0,
    ensures
        rows * columns >= children,
        rows == 0 || (rows - 1) * columns < children,
{
    let full = children / columns;
    let rem = children % columns;
    proof {
        vstd::arithmetic::div_mod::lemma_fundamental_div_mod(children as int, columns as int);
        assert(full * columns == columns * full) by (nonlinear_arith);
        assert(full * columns + rem == children);
        assert(0 <= rem < columns);
        if rem != 0 {
            assert(columns >= 2);
            assert(full < usize::MAX) by (nonlinear_arith)
                requires
                    full * columns + rem == children,
                    columns >= 2,
                    children <= usize::MAX,
            ;
        }
    }
    let rows = if rem == 0 {
        full
    } else {
        full + 1
    };
    proof {
        assert((full + 1) * columns == full * columns + columns) by (nonlinear_arith);
        if rem == 0 && full > 0 {
            assert((full - 1) * columns == full * columns - columns) by (nonlinear_arith);
        }
    }
    rows
}

/// The number of rows a list view lays out: as many as it was told it has,
/// or as many as it was given, whichever is more.
pub fn list_row_count(declared: usize, given: usize) -> (count: usize)
    ensures
        count == if declared >= given { declared } else { given },
{
    if declared >= given {
        declared
    } else {
        given
    }
}

/// Every cell of a grid stands in one of its rows: the row of any of the
/// first `children` cells is below the number of rows.
pub proof fn law_grid_rows_hold_every_cell(children: nat, columns: nat, rows: nat, index: nat)
    requires
        columns > 0,
        rows * columns >= children,
        index < children,
    ensures
        index / columns < rows,
{
    vstd::arithmetic::div_mod::lemma_fundamental_div_mod(index as int, columns as int);
    assert((index / columns) * columns <= index) by (nonlinear_arith)
        requires
            index == columns * (index / columns) + index % columns,
            index % columns >= 0,
    ;
    if index / columns >= rows {
        assert((index / columns) * columns >= rows * columns) by (nonlinear_arith)
            requires
                index / columns >= rows,
                columns > 0,
        ;
    }
}

} // verus!
