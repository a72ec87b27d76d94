use array2d::Array2D;
use game_of_life_gpu::codec::cells_to_ne_bytes;
use game_of_life_gpu::grid::{cells_row_major, grid_dimensions, grid_from_cells, grid_from_readback};

fn sample() -> Array2D<i32> {
    Array2D::from_rows(&[vec![1, 2, 3], vec![4, 5, 6]]).unwrap()
}

/// Copies bytes into storage aligned for `u32` words, as a mapped GPU buffer is.
fn aligned(bytes: &[u8]) -> Vec<u32> {
    let mut words = vec![0u32; bytes.len() / 4];
    bytemuck::cast_slice_mut::<u32, u8>(&mut words).copy_from_slice(bytes);
    words
}

#[test]
fn row_major_layout_of_a_fitting_grid() {
    assert_eq!(cells_row_major(&sample(), 3, 2), vec![1, 2, 3, 4, 5, 6]);
}

#[test]
fn row_major_layout_pads_with_dead_cells() {
    assert_eq!(
        cells_row_major(&sample(), 4, 3),
        vec![1, 2, 3, 0, 4, 5, 6, 0, 0, 0, 0, 0]
    );
}

#[test]
fn row_major_layout_crops_a_larger_grid() {
    assert_eq!(cells_row_major(&sample(), 2, 1), vec![1, 2]);
    assert_eq!(cells_row_major(&sample(), 0, 5), Vec::<i32>::new());
}

#[test]
fn grid_from_cells_keeps_row_major_order() {
    let grid = grid_from_cells(&[1, 2, 3, 4, 5, 6], 2, 3);
    assert_eq!(grid.num_rows(), 2);
    assert_eq!(grid.num_columns(), 3);
    assert_eq!(grid[(1, 0)], 4);
    assert_eq!(grid, sample());
}

#[test]
fn upload_then_readback_gives_the_grid_back() {
    let grid = Array2D::from_rows(&[vec![0, 1, 0], vec![1, 1, -7], vec![i32::MIN, i32::MAX, 0]])
        .unwrap();
    let bytes = cells_to_ne_bytes(&cells_row_major(&grid, 3, 3));
    let words = aligned(&bytes);
    let back = grid_from_readback(bytemuck::cast_slice(&words), 3, 3).unwrap();
    assert_eq!(back, grid);
}

#[test]
fn readback_of_unaligned_bytes_is_refused() {
    let words = aligned(&[0u8; 8]);
    let bytes: &[u8] = bytemuck::cast_slice(&words);
    assert!(grid_from_readback(&bytes[1..5], 1, 1).is_none());
}

#[test]
fn readback_decodes_words_as_signed_cells() {
    let words = vec![5u32, 0xFFFF_FFFF, 0x8000_0000, 1];
    let back = grid_from_readback(bytemuck::cast_slice(&words), 2, 2).unwrap();
    assert_eq!(back, Array2D::from_rows(&[vec![5, -1], vec![i32::MIN, 1]]).unwrap());
}

#[test]
fn grid_dimensions_are_rows_then_columns() {
    assert_eq!(grid_dimensions(&sample()), (2, 3));
}

#[test]
fn successful_cast_gives_the_grid() {
    let grid = game_of_life_gpu::grid::grid_from_cast(Ok(vec![1, 0, 0xFFFF_FFFF, 1]), 2, 2).unwrap();
    assert_eq!(grid, Array2D::from_rows(&[vec![1, 0], vec![-1, 1]]).unwrap());
}

#[test]
fn failed_cast_gives_no_grid() {
    let grid = game_of_life_gpu::grid::grid_from_cast(
        Err(bytemuck::PodCastError::OutputSliceWouldHaveSlop),
        1,
        1,
    );
    assert!(grid.is_none());
}
