//! Rendering a grid as a grey image.

use vstd::prelude::*;
use image::{GrayImage, Luma};
use array2d::Array2D;
use crate::grid::{array2d_index, array2d_num_columns, array2d_num_rows, grid_cells, grid_shape};

verus! {

/// A grey image of the `image` crate (`GrayImage`, one byte per pixel). The
/// image is held in this struct, opaque to Verus, because `ImageBuffer`
/// itself cannot be declared here: its pixel parameter is bound by the
/// crate's `Pixel` trait. What it holds is known through `image_levels` and
/// `image_size`.
#[verifier::external_body]
pub struct LumaImage {
    image: GrayImage,
}

/// The grey levels of an image, row after row, one byte per pixel.
pub uninterp spec fn image_levels(img: LumaImage) -> Seq<u8>;

/// The size of an image: its width, then its height, in pixels.
pub uninterp spec fn image_size(img: LumaImage) -> (nat, nat);

impl LumaImage {
    /// `ImageBuffer::new` for a grey image: every pixel is black (level 0).
    /// The crate panics when the pixel count overflows `usize`.
    #[verifier::external_body]
    pub(crate) fn new(width: u32, height: u32) -> (img: LumaImage)
        requires
            width * height <= usize::MAX,
        ensures
            image_size(img) == (width as nat, height as nat),
            image_levels(img) == Seq::new((width * height) as nat, |i: int| 0u8),
    {
        LumaImage { image: GrayImage::new(width, height) }
    }

    /// `ImageBuffer::put_pixel` for a grey image: sets the level of pixel
    /// `(x, y)`. The crate panics outside the image.
    #[verifier::external_body]
    pub(crate) fn put_level(&mut self, x: u32, y: u32, level: u8)
        requires
            x < image_size(*old(self)).0,
            y < image_size(*old(self)).1,
        ensures
            image_size(*final(self)) == image_size(*old(self)),
            image_levels(*final(self)) == image_levels(*old(self)).update(
                y * image_size(*old(self)).0 + x,
                level,
            ),
    {
        self.image.put_pixel(x, y, Luma([level]))
    }

    /// `ImageBuffer::as_raw`, copied: the grey levels, row after row.
    #[verifier::external_body]
    pub(crate) fn raw_levels(&self) -> (levels: Vec<u8>)
        ensures
            levels@ == image_levels(*self),
    {
        self.image.as_raw().clone()
    }

    /// `ImageBuffer::dimensions`: the width, then the height.
    #[verifier::external_body]
    pub(crate) fn dimensions(&self) -> (size: (u32, u32))
        ensures
            (size.0 as nat, size.1 as nat) == image_size(*self),
    {
        self.image.dimensions()
    }

    /// The grey levels of the image, row after row, one byte per pixel.
    pub fn levels(&self) -> (levels: Vec<u8>)
        ensures
            levels@ == image_levels(*self),
    {
        self.raw_levels()
    }

    /// The width, then the height, of the image in pixels.
    pub fn size(&self) -> (size: (u32, u32))
        ensures
            (size.0 as nat, size.1 as nat) == image_size(*self),
    {
        self.dimensions()
    }
}

/// The grey level of a cell: white (255) for a live cell (value 1), black
/// (0) for any other value.
pub open spec fn level_of(cell: i32) -> u8 {
    if cell == 1 {
        255
    } else {
        0
    }
}

/// The grey level that shows `cell`.
pub fn pixel_level(cell: i32) -> (level: u8)
    ensures
        level == level_of(cell),
{
    if cell == 1 {
        255u8
    } else {
        0u8
    }
}

/// Whether `grid` can be drawn: its sides fit in `u32`, as image sides do,
/// unless one of them is 0, and its cell count fits in `usize`.
pub open spec fn drawable(grid: Array2D<i32>) -> bool {
    &&& (grid_shape(grid).0 <= u32::MAX && grid_shape(grid).1 <= u32::MAX) || grid_shape(grid).0 == 0
        || grid_shape(grid).1 == 0
    &&& grid_shape(grid).0 * grid_shape(grid).1 <= usize::MAX
}

/// Whether `img` draws `grid`, one pixel per cell: its width is the grid's
/// column count and its height the row count (each as `u32`, which leaves
/// them unchanged where both fit), and pixel `(x, y)`, at `y * width + x`,
/// shows the cell in row `y` and column `x`.
pub open spec fn draws(img: LumaImage, grid: Array2D<i32>) -> bool {
    &&& image_size(img) == ((grid_shape(grid).1 as u32) as nat, (grid_shape(grid).0 as u32) as nat)
    &&& image_levels(img).len() == grid_shape(grid).0 * grid_shape(grid).1
    &&& forall|k: int|
        0 <= k < grid_shape(grid).0 * grid_shape(grid).1 ==> #[trigger] image_levels(img)[k]
            == level_of(grid_cells(grid)[k])
}

/// A grey image of `grid`, one pixel per cell: pixel `(x, y)` shows the cell
/// in row `y` and column `x`, white when it is alive and black otherwise.
/// The grid must be drawable: with a side beyond `u32` and cells to draw,
/// drawing panics.
pub fn luma_image_from_grid(grid: &Array2D<i32>) -> (img: LumaImage)
    requires
        drawable(*grid),
    ensures
        draws(img, *grid),
{
    let height = array2d_num_rows(grid);
    let width = array2d_num_columns(grid);
    proof {
        assert(width * height == height * width) by (nonlinear_arith);
        if height == 0 {
            assert((width as u32) * (height as u32) == 0) by (nonlinear_arith)
                requires
                    height == 0,
            ;
        } else if width == 0 {
            assert((width as u32) * (height as u32) == 0) by (nonlinear_arith)
                requires
                    width == 0,
            ;
        }
    }
    let mut img = LumaImage::new(width as u32, height as u32);
    let mut y: usize = 0;
    while y < height
        invariant
            y <= height,
            height == grid_shape(*grid).0,
            width == grid_shape(*grid).1,
            drawable(*grid),
            image_size(img) == ((width as u32) as nat, (height as u32) as nat),
            image_levels(img).len() == height * width,
            forall|k: int|
                0 <= k < y * width ==> #[trigger] image_levels(img)[k] == level_of(
                    grid_cells(*grid)[k],
                ),
        decreases height - y,
    {
        let mut x: usize = 0;
        while x < width
            invariant
                x <= width,
                y < height,
                height == grid_shape(*grid).0,
                width == grid_shape(*grid).1,
                drawable(*grid),
                image_size(img) == ((width as u32) as nat, (height as u32) as nat),
                image_levels(img).len() == height * width,
                forall|k: int|
                    0 <= k < y * width + x ==> #[trigger] image_levels(img)[k] == level_of(
                        grid_cells(*grid)[k],
                    ),
            decreases width - x,
        {
            proof {
                crate::grid::lemma_row_major_index(y as int, x as int, width as int, height as int);
            }
            let cell = array2d_index(grid, y, x);
            img.put_level(x as u32, y as u32, pixel_level(cell));
            x = x + 1;
        }
        assert(y * width + width == (y + 1) * width) by (nonlinear_arith);
        y = y + 1;
    }
    img
}

/// The grey image of `grid` when it is drawable, `None` otherwise.
pub fn try_luma_image_from_grid(grid: &Array2D<i32>) -> (img: Option<LumaImage>)
    ensures
        img is Some <==> drawable(*grid),
        img matches Some(i) ==> draws(i, *grid),
{
    let height = array2d_num_rows(grid);
    let width = array2d_num_columns(grid);
    let sides_fit = (height <= u32::MAX as usize && width <= u32::MAX as usize) || height == 0
        || width == 0;
    match height.checked_mul(width) {
        Some(_) => {
            if sides_fit {
                Some(luma_image_from_grid(grid))
            } else {
                None
            }
        },
        None => None,
    }
}

} // verus!
