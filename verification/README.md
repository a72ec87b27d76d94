# game_of_life_gpu

A Game of Life whose generations are computed on the GPU by a WGSL compute
shader, with the logic around the GPU work verified with Verus.

- `src/` is the verified library:
  - `schedule`: the ping-pong use of two GPU buffers (which bind group each
    iteration uses, which buffer holds the grid after a number of iterations,
    with the laws that tie them), the number of workgroups per axis and the
    size of a grid buffer;
  - `grid`: grids held in `array2d::Array2D<i32>`, their row-major layout
    (cropped or padded with dead cells), their reconstruction from cells or
    from the bytes read back from the GPU, and the upload/readback round trip;
  - `codec`: the bytes of cells and shader parameters in the machine's byte
    order, and their decoding;
  - `luma`: the rendering of a grid as a grey image of the `image` crate.
- `app/main.rs` drives the GPU with `wgpu` (device setup, dispatch,
  readback), draws the random start grid, shows progress and writes the PNG
  files. It reads the shader source from `compute.wgsl` in the working
  directory.
- `app/top_shooters.rs` holds the second program of the project, run with
  the argument `top-shooters`: a polars query over `PlayerStatistics.csv`
  that ranks players by career three-pointers made. It sums and sorts `f32`
  values, so it is not part of the library. The `polars` and
  `polars-rows-iter` crates are not among the dependencies, so this module
  does not compile as it stands.
- `tests/` exercise the library on concrete grids and byte buffers.
