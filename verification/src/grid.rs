//! Grids of cells held in an `array2d::Array2D<i32>`, and their row-major
//! layout.

use vstd::prelude::*;
use vstd::endian::endianness;
use array2d::Array2D;
use bytemuck::PodCastError;
use crate::codec::{
    bytes_to_cells,
    cells_from_cast,
    cells_to_bytes,
    lemma_cells_round_trip,
    try_cast_bytes_to_words,
};

verus! {

/// `array2d::Array2D`, opaque here: what a grid holds is known through
/// `grid_cells` and `grid_shape`.
#[verifier::external_type_specification]
#[verifier::external_body]
#[verifier::reject_recursive_types(T)]
pub struct ExArray2D<T>(Array2D<T>);

/// `array2d::Error`, the error of a construction that does not fit its shape.
#[verifier::external_type_specification]
#[verifier::external_body]
pub struct ExArray2DError(array2d::Error);

/// The elements of a grid, in row-major order (the crate's `array` field).
pub uninterp spec fn grid_cells(grid: Array2D<i32>) -> Seq<i32>;

/// The shape of a grid: its number of rows, then its number of columns (the
/// crate's `num_rows` and `num_columns` fields).
pub uninterp spec fn grid_shape(grid: Array2D<i32>) -> (nat, nat);

/// Number of rows of a grid.
pub open spec fn grid_rows(grid: Array2D<i32>) -> nat {
    grid_shape(grid).0
}

/// Number of columns of a grid.
pub open spec fn grid_columns(grid: Array2D<i32>) -> nat {
    grid_shape(grid).1
}

/// What `Array2D::get(row, column)` finds: the element at that position when
/// it lies inside the grid.
pub open spec fn grid_entry(grid: Array2D<i32>, row: int, column: int) -> Option<i32> {
    if 0 <= row < grid_rows(grid) && 0 <= column < grid_columns(grid) {
        Some(grid_cells(grid)[row * grid_columns(grid) + column])
    } else {
        None
    }
}

/// `Array2D::get`: the element at `(row, column)`, or `None` outside the grid.
/// The grid's row count times its column count must fit in `usize`: the
/// crate's constructors compute that product with `*`, so a grid built with
/// a larger one can hold fewer cells than its shape claims, and `get` then
/// panics.
#[verifier::external_body]
pub(crate) fn array2d_get(grid: &Array2D<i32>, row: usize, column: usize) -> (r: Option<i32>)
    requires
        grid_shape(*grid).0 * grid_shape(*grid).1 <= usize::MAX,
    ensures
        r == (if row < grid_shape(*grid).0 && column < grid_shape(*grid).1 {
            Some(grid_cells(*grid)[row * grid_shape(*grid).1 + column])
        } else {
            None
        }),
{
    grid.get(row, column).copied()
}

/// `Array2D::index` at `(row, column)`, which panics outside the grid, and,
/// as `get` does, on a grid whose row count times column count overflows
/// `usize`.
#[verifier::external_body]
pub(crate) fn array2d_index(grid: &Array2D<i32>, row: usize, column: usize) -> (r: i32)
    requires
        grid_shape(*grid).0 * grid_shape(*grid).1 <= usize::MAX,
        row < grid_shape(*grid).0,
        column < grid_shape(*grid).1,
    ensures
        r == grid_cells(*grid)[row * grid_shape(*grid).1 + column],
{
    grid[(row, column)]
}

/// `Array2D::num_rows`.
#[verifier::external_body]
pub(crate) fn array2d_num_rows(grid: &Array2D<i32>) -> (r: usize)
    ensures
        r == grid_shape(*grid).0,
{
    grid.num_rows()
}

/// `Array2D::num_columns`. Every constructor of the crate stores
/// `num_rows * num_columns` cells when that product does not overflow
/// `usize`, and no method changes the count, so the grid then holds exactly
/// that many cells.
#[verifier::external_body]
pub(crate) fn array2d_num_columns(grid: &Array2D<i32>) -> (r: usize)
    ensures
        r == grid_shape(*grid).1,
        grid_shape(*grid).0 * r <= usize::MAX ==> grid_cells(*grid).len() == grid_shape(*grid).0
            * r,
{
    grid.num_columns()
}

/// `Array2D::from_row_major`: succeeds exactly when `elements` holds
/// `num_rows * num_columns` values, and then holds a copy of them in
/// row-major order with the given shape. The product must not overflow, as
/// the crate computes it with `*`.
#[verifier::external_body]
pub(crate) fn array2d_from_row_major(elements: &[i32], num_rows: usize, num_columns: usize) -> (r:
    Result<Array2D<i32>, array2d::Error>)
    requires
        num_rows * num_columns <= usize::MAX,
    ensures
        r is Ok <==> elements@.len() == num_rows * num_columns,
        r matches Ok(grid) ==> grid_cells(grid) == elements@ && grid_shape(grid) == (
        num_rows as nat,
        num_columns as nat,
        ),
{
    Array2D::from_row_major(elements, num_rows, num_columns)
}

/// The shape of `grid`: its number of rows, then its number of columns.
/// When their product fits in `usize` the grid holds exactly that many
/// cells.
pub fn grid_dimensions(grid: &Array2D<i32>) -> (dims: (usize, usize))
    ensures
        (dims.0 as nat, dims.1 as nat) == grid_shape(*grid),
        dims.0 * dims.1 <= usize::MAX ==> grid_cells(*grid).len() == dims.0 * dims.1,
{
    let rows = array2d_num_rows(grid);
    let columns = array2d_num_columns(grid);
    (rows, columns)
}

/// What the grid holds at `(row, column)`, or 0 outside it (the value
/// `Array2D::get(row, column).unwrap_or(&0)` gives).
pub open spec fn entry_or_zero(grid: Array2D<i32>, row: int, column: int) -> i32 {
    match grid_entry(grid, row, column) {
        Some(value) => value,
        None => 0,
    }
}

/// The cells of an area of `height` rows of `width` cells, row after row,
/// taken from `grid` where it covers the area and 0 elsewhere.
pub open spec fn padded_cells(grid: Array2D<i32>, width: nat, height: nat) -> Seq<i32> {
    Seq::new(width * height, |k: int| entry_or_zero(grid, k / width as int, k % width as int))
}

/// Position `(row, column)` of an area `width` cells wide sits at
/// `row * width + column` in row-major order, inside the first
/// `height * width` positions.
pub(crate) proof fn lemma_row_major_index(row: int, column: int, width: int, height: int)
    requires
        0 <= row < height,
        0 <= column < width,
    ensures
        (row * width + column) / width == row,
        (row * width + column) % width == column,
        0 <= row * width + column < height * width,
        row * width + width == (row + 1) * width,
{
    vstd::arithmetic::div_mod::lemma_fundamental_div_mod_converse(
        row * width + column,
        width,
        row,
        column,
    );
    assert(0 <= row * width + column < height * width) by (nonlinear_arith)
        requires
            0 <= row < height,
            0 <= column < width,
    ;
    assert(row * width + width == (row + 1) * width) by (nonlinear_arith);
}

/// Laying a grid out over a `width` by `height` area puts, at position
/// `row * width + column` of the area, the grid's cell in that row and
/// column when the grid reaches it, and a dead cell (0) otherwise: grid
/// rows are never run together, whatever the grid's shape.
pub proof fn lemma_padded_cells_at(grid: Array2D<i32>, width: nat, height: nat, row: int, column: int)
    requires
        0 <= row < height,
        0 <= column < width,
    ensures
        padded_cells(grid, width, height).len() == width * height,
        padded_cells(grid, width, height)[row * width + column] == (if row < grid_shape(grid).0
            && column < grid_shape(grid).1 {
            grid_cells(grid)[row * grid_shape(grid).1 + column]
        } else {
            0
        }),
{
    lemma_row_major_index(row, column, width as int, height as int);
    assert(width * height == height * width) by (nonlinear_arith);
}

/// The cells of a `width` by `height` area laid out for the GPU: row after
/// row, each position taken from `grid`, or 0 where the grid does not reach.
/// A grid of exactly that shape is laid out as its own cells. The grid's
/// row count times its column count must fit in `usize`, as reading a grid
/// whose product overflows panics.
pub fn cells_row_major(grid: &Array2D<i32>, width: usize, height: usize) -> (cells: Vec<i32>)
    requires
        width * height <= usize::MAX,
        grid_shape(*grid).0 * grid_shape(*grid).1 <= usize::MAX,
    ensures
        cells@ == padded_cells(*grid, width as nat, height as nat),
        cells@.len() == width * height,
        forall|row: int, column: int|
            0 <= row < height && 0 <= column < width ==> #[trigger] cells@[row * width + column] == (
            if row < grid_shape(*grid).0 && column < grid_shape(*grid).1 {
                grid_cells(*grid)[row * grid_shape(*grid).1 + column]
            } else {
                0
            }),
        grid_shape(*grid) == (height as nat, width as nat) ==> cells@ == grid_cells(*grid),
{
    let dims = grid_dimensions(grid);
    let mut cells: Vec<i32> = Vec::new();
    let mut y: usize = 0;
    while y < height
        invariant
            y <= height,
            width * height <= usize::MAX,
            grid_shape(*grid).0 * grid_shape(*grid).1 <= usize::MAX,
            cells@.len() == y * width,
            forall|k: int|
                0 <= k < y * width ==> #[trigger] cells@[k] == entry_or_zero(
                    *grid,
                    k / width as int,
                    k % width as int,
                ),
        decreases height - y,
    {
        let mut x: usize = 0;
        while x < width
            invariant
                x <= width,
                y < height,
                width * height <= usize::MAX,
                grid_shape(*grid).0 * grid_shape(*grid).1 <= usize::MAX,
                cells@.len() == y * width + x,
                forall|k: int|
                    0 <= k < y * width + x ==> #[trigger] cells@[k] == entry_or_zero(
                        *grid,
                        k / width as int,
                        k % width as int,
                    ),
            decreases width - x,
        {
            proof {
                lemma_row_major_index(y as int, x as int, width as int, height as int);
            }
            let value = match array2d_get(grid, y, x) {
                Some(v) => v,
                None => 0,
            };
            cells.push(value);
            x = x + 1;
        }
        proof {
            if width > 0 {
                lemma_row_major_index(y as int, 0, width as int, height as int);
            }
        }
        y = y + 1;
    }
    assert(y * width == width * height) by (nonlinear_arith)
        requires
            y == height,
    ;
    assert(cells@ =~= padded_cells(*grid, width as nat, height as nat));
    proof {
        assert forall|row: int, column: int|
            0 <= row < height && 0 <= column < width implies #[trigger] cells@[row * width + column]
            == (if row < grid_shape(*grid).0 && column < grid_shape(*grid).1 {
            grid_cells(*grid)[row * grid_shape(*grid).1 + column]
        } else {
            0
        }) by {
            lemma_padded_cells_at(*grid, width as nat, height as nat, row, column);
        }
        if grid_shape(*grid) == (height as nat, width as nat) {
            assert(dims.0 * dims.1 == height * width);
            lemma_full_grid_layout(*grid, width as nat, height as nat);
        }
    }
    cells
}

/// A grid of `rows` rows and `columns` columns holding `cells` in row-major
/// order. The cell count must be `rows * columns`: the construction panics
/// otherwise.
pub fn grid_from_cells(cells: &[i32], rows: usize, columns: usize) -> (grid: Array2D<i32>)
    requires
        cells@.len() == rows * columns,
    ensures
        grid_cells(grid) == cells@,
        grid_shape(grid) == (rows as nat, columns as nat),
{
    let count = cells.len();
    assert(count == rows * columns);
    array2d_from_row_major(cells, rows, columns).unwrap()
}

/// The grid that the result of casting readback bytes to `u32` words
/// holds: the words taken as `i32` cells of the same bits, arranged in `rows`
/// rows of `columns` cells. `None` exactly when the cast failed. A successful
/// cast must hold one word per cell.
pub fn grid_from_cast(words: Result<Vec<u32>, PodCastError>, rows: usize, columns: usize) -> (grid:
    Option<Array2D<i32>>)
    requires
        words matches Ok(w) ==> w@.len() == rows * columns,
    ensures
        grid is Some <==> words is Ok,
        words matches Ok(w) ==> grid matches Some(g) && grid_cells(g) == w@.map_values(
            |x: u32| x as i32,
        ) && grid_shape(g) == (rows as nat, columns as nat),
{
    match cells_from_cast(words) {
        Some(cells) => Some(grid_from_cells(cells.as_slice(), rows, columns)),
        None => None,
    }
}

/// The grid that a readback of a GPU buffer holds: its bytes decoded into
/// cells, arranged in `rows` rows of `columns` cells. `None` when the bytes
/// do not start at an address aligned for `u32` words. The byte count must
/// be four per cell.
pub fn grid_from_readback(bytes: &[u8], rows: usize, columns: usize) -> (grid: Option<
    Array2D<i32>,
>)
    requires
        bytes@.len() == 4 * (rows * columns),
    ensures
        grid matches Some(g) ==> grid_cells(g) == bytes_to_cells(endianness(), bytes@)
            && grid_shape(g) == (rows as nat, columns as nat),
{
    grid_from_cast(try_cast_bytes_to_words(bytes), rows, columns)
}

/// A grid whose shape is the area's, laid out row by row, gives exactly its
/// own cells (no padding is needed).
pub proof fn lemma_full_grid_layout(grid: Array2D<i32>, width: nat, height: nat)
    requires
        grid_shape(grid) == (height, width),
        grid_cells(grid).len() == height * width,
    ensures
        padded_cells(grid, width, height) == grid_cells(grid),
{
    let laid = padded_cells(grid, width, height);
    assert(width * height == height * width) by (nonlinear_arith);
    assert forall|k: int| 0 <= k < height * width implies laid[k] == grid_cells(grid)[k] by {
        assert(width > 0) by (nonlinear_arith)
            requires
                0 <= k < height * width,
        ;
        vstd::arithmetic::div_mod::lemma_fundamental_div_mod(k, width as int);
        let row = k / width as int;
        let column = k % width as int;
        assert(0 <= row < height) by (nonlinear_arith)
            requires
                row == k / width as int,
                0 <= k < height * width,
                width > 0,
        ;
        assert(row * width + column == k) by (nonlinear_arith)
            requires
                k == width * (k / width as int) + k % width as int,
                row == k / width as int,
                column == k % width as int,
        ;
        assert(laid[k] == entry_or_zero(grid, row, column));
    }
    assert(laid =~= grid_cells(grid));
}

/// Uploading a grid and reading the untouched buffer back gives the grid
/// laid out for the area: cropped to it and padded with dead cells. For a
/// grid of the area's shape (whose cell count `grid_dimensions` gives) that
/// is the grid's own cells: the readback decodes, in the machine's byte
/// order, the bytes that the upload wrote.
pub proof fn lemma_upload_readback_round_trip(grid: Array2D<i32>, width: nat, height: nat)
    ensures
        bytes_to_cells(endianness(), cells_to_bytes(endianness(), padded_cells(grid, width, height)))
            == padded_cells(grid, width, height),
        grid_shape(grid) == (height, width) && grid_cells(grid).len() == height * width
            ==> bytes_to_cells(
            endianness(),
            cells_to_bytes(endianness(), padded_cells(grid, width, height)),
        ) == grid_cells(grid),
{
    lemma_cells_round_trip(endianness(), padded_cells(grid, width, height));
    if grid_shape(grid) == (height, width) && grid_cells(grid).len() == height * width {
        lemma_full_grid_layout(grid, width, height);
    }
}

} // verus!
