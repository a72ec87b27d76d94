use array2d::Array2D;
use game_of_life_gpu::luma::{luma_image_from_grid, pixel_level, try_luma_image_from_grid};

#[test]
fn live_cells_are_white_and_others_black() {
    assert_eq!(pixel_level(1), 255);
    assert_eq!(pixel_level(0), 0);
    assert_eq!(pixel_level(2), 0);
    assert_eq!(pixel_level(-1), 0);
}

#[test]
fn image_has_one_pixel_per_cell() {
    let grid = Array2D::from_rows(&[vec![1, 0, 1], vec![0, 0, 1]]).unwrap();
    let img = luma_image_from_grid(&grid);
    assert_eq!(img.size(), (3, 2));
    assert_eq!(img.levels(), vec![255, 0, 255, 0, 0, 255]);
}

#[test]
fn empty_grid_gives_empty_image() {
    let grid = Array2D::<i32>::from_row_major(&[], 0, 0).unwrap();
    let img = luma_image_from_grid(&grid);
    assert_eq!(img.size(), (0, 0));
    assert!(img.levels().is_empty());
}

#[test]
fn drawable_grid_is_drawn() {
    let grid = Array2D::from_rows(&[vec![0, 1], vec![1, 7]]).unwrap();
    let img = try_luma_image_from_grid(&grid).unwrap();
    assert_eq!(img.size(), (2, 2));
    assert_eq!(img.levels(), vec![0, 255, 255, 0]);
}

#[test]
fn grid_without_rows_and_with_a_wide_side_gives_an_empty_image() {
    let grid = Array2D::<i32>::from_row_major(&[], 0, (1usize << 32) + 5).unwrap();
    let img = try_luma_image_from_grid(&grid).unwrap();
    assert_eq!(img.size(), (5, 0));
    assert!(img.levels().is_empty());
}
