//! Conversion from logical board cells (row, column) to world coordinates.

use vstd::prelude::*;

verus! {

/// Width of the arena, in pixels.
pub const ARENA_WIDTH: i64 = 800;

/// Height of the arena, in pixels.
pub const ARENA_HEIGHT: i64 = 600;

/// Width of one board cell in the unscaled board image, in pixels.
pub const CELL_WIDTH: i64 = 100;

/// Height of one board cell in the unscaled board image, in pixels.
pub const CELL_HEIGHT: i64 = 102;

/// Width of the river gap in the unscaled board image, in pixels.
pub const RIVER_WIDTH: i64 = 104;

/// Number of world sub-units per pixel: coordinates are held in tenths.
pub const SUBUNITS: i64 = 10;

/// The board render scale factor (0.60), in tenths.
pub const BOARD_SCALE_TENTHS: i64 = 6;

/// Number of rows of the board.
pub const NUM_ROWS: i32 = 10;

/// Number of columns of the board.
pub const NUM_COLUMNS: i32 = 9;

/// The middle row of the board (4.5), counted in half rows.
pub const MID_ROW_HALVES: i64 = 9;

/// The middle column of the board.
pub const MID_COLUMN: i64 = 4;

/// `floor(midRow - row)`, with `midRow = MID_ROW_HALVES / 2`.
pub open spec fn row_steps(row: int) -> int {
    (MID_ROW_HALVES - 2 * row) / 2
}

/// Whether `row` lies below the river (`row < midRow`).
pub open spec fn below_river(row: int) -> bool {
    2 * row < MID_ROW_HALVES
}

/// The river offset of a row, in pixels of the unscaled board image.
pub open spec fn river_offset(row: int) -> int {
    if below_river(row) {
        RIVER_WIDTH / 2
    } else {
        -(RIVER_WIDTH / 2)
    }
}

/// A pixel length of the unscaled board, scaled by the board scale factor and
/// given in world sub-units (the scale is in tenths, hence the division).
pub open spec fn scaled(len: int) -> int {
    BOARD_SCALE_TENTHS * len * SUBUNITS / 10
}

/// World x coordinate of a column, in tenths of a pixel:
/// `arenaWidth/2 - scale * (midColumn - column) * cellWidth`.
pub open spec fn column_to_world_x(column: int) -> int {
    ARENA_WIDTH * SUBUNITS / 2 - scaled((MID_COLUMN - column) * CELL_WIDTH)
}

/// World y coordinate of a row, in tenths of a pixel:
/// `arenaHeight/2 - scale * (floor(midRow - row) * cellHeight + riverOffset(row))`.
pub open spec fn row_to_world_y(row: int) -> int {
    ARENA_HEIGHT * SUBUNITS / 2 - scaled(row_steps(row) * CELL_HEIGHT + river_offset(row))
}

/// World position of a board cell, in tenths of a pixel. Cells outside the
/// 10 x 9 grid extrapolate linearly.
pub open spec fn cell_to_world(row: int, column: int) -> (int, int) {
    (column_to_world_x(column), row_to_world_y(row))
}

proof fn lemma_row_steps(row: int)
    ensures
        row_steps(row) == (MID_ROW_HALVES - 1) / 2 - row,
{
    vstd::arithmetic::div_mod::lemma_fundamental_div_mod_converse(
        MID_ROW_HALVES - 2 * row,
        2,
        (MID_ROW_HALVES - 1) / 2 - row,
        1,
    );
}

/// World position `(x, y)` of the cell at `row`, `column`, in tenths of a pixel.
pub fn get_board_coordinates(row: i32, column: i32) -> (r: (i64, i64))
    ensures
        r.0 == cell_to_world(row as int, column as int).0,
        r.1 == cell_to_world(row as int, column as int).1,
{
    let row = row as i64;
    let column = column as i64;
    let x: i64 = ARENA_WIDTH * SUBUNITS / 2 - BOARD_SCALE_TENTHS * (MID_COLUMN - column)
        * CELL_WIDTH;
    let offset: i64 = if 2 * row < MID_ROW_HALVES {
        RIVER_WIDTH / 2
    } else {
        -(RIVER_WIDTH / 2)
    };
    let steps: i64 = (MID_ROW_HALVES - 1) / 2 - row;
    proof {
        lemma_row_steps(row as int);
    }
    let y: i64 = ARENA_HEIGHT * SUBUNITS / 2 - BOARD_SCALE_TENTHS * (steps * CELL_HEIGHT
        + offset);
    (x, y)
}

/// A cell's row affects only its y coordinate: the cells at rows 4 and 5 of a
/// column share their x coordinate.
pub proof fn lemma_midline_rows_share_x(column: int)
    ensures
        cell_to_world(4, column).0 == cell_to_world(5, column).0,
{
}

/// Crossing the river from row 4 to row 5 moves a cell up by the scaled river
/// width plus one scaled cell height step, while every other step between
/// adjacent rows is one scaled cell height.
pub proof fn lemma_river_step(row: int, column: int)
    ensures
        cell_to_world(5, column).1 - cell_to_world(4, column).1 == scaled(RIVER_WIDTH + CELL_HEIGHT),
        row != 4 ==> cell_to_world(row + 1, column).1 - cell_to_world(row, column).1 == scaled(
            CELL_HEIGHT as int,
        ),
{
    lemma_row_steps(4);
    lemma_row_steps(5);
    lemma_row_steps(row);
    lemma_row_steps(row + 1);
}

/// The conversion depends on its inputs alone: equal cells have equal world
/// positions.
pub proof fn lemma_cell_to_world_deterministic(row1: int, column1: int, row2: int, column2: int)
    requires
        row1 == row2,
        column1 == column2,
    ensures
        cell_to_world(row1, column1) == cell_to_world(row2, column2),
{
}

/// Cells in different rows lie at least one scaled cell height apart in y.
pub proof fn lemma_row_y_spacing(row1: int, row2: int)
    ensures
        row1 != row2 ==> distance_at_least(row_to_world_y(row1), row_to_world_y(row2), scaled(CELL_HEIGHT as int)),
{
    lemma_row_steps(row1);
    lemma_row_steps(row2);
}

/// `|a - b| >= d`.
pub open spec fn distance_at_least(a: int, b: int, d: int) -> bool {
    a - b >= d || b - a >= d
}

} // verus!
