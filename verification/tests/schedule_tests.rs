use game_of_life_gpu::schedule::{
    buffer_after, grid_buffer_size, pass_for_iteration, workgroup_count, GridBuffer, Pass, HEIGHT,
    ITERATIONS, WIDTH, WORKGROUP_SIZE_X, WORKGROUP_SIZE_Y,
};

fn reads(pass: Pass) -> GridBuffer {
    match pass {
        Pass::AToB => GridBuffer::A,
        Pass::BToA => GridBuffer::B,
    }
}

fn writes(pass: Pass) -> GridBuffer {
    match pass {
        Pass::AToB => GridBuffer::B,
        Pass::BToA => GridBuffer::A,
    }
}

#[test]
fn even_iterations_read_a_and_write_b() {
    assert_eq!(pass_for_iteration(0), Pass::AToB);
    assert_eq!(pass_for_iteration(2), Pass::AToB);
    assert_eq!(pass_for_iteration(ITERATIONS), Pass::AToB);
    assert_eq!(pass_for_iteration(-2), Pass::AToB);
}

#[test]
fn odd_iterations_read_b_and_write_a() {
    assert_eq!(pass_for_iteration(1), Pass::BToA);
    assert_eq!(pass_for_iteration(99_999), Pass::BToA);
    assert_eq!(pass_for_iteration(-1), Pass::BToA);
    assert_eq!(pass_for_iteration(i32::MAX), Pass::BToA);
}

#[test]
fn each_iteration_reads_what_the_previous_one_wrote() {
    assert_eq!(reads(pass_for_iteration(0)), GridBuffer::A);
    for i in 0..50 {
        let now = pass_for_iteration(i);
        let next = pass_for_iteration(i + 1);
        assert_ne!(reads(now), writes(now));
        assert_eq!(reads(next), writes(now));
    }
}

#[test]
fn readback_takes_the_last_written_buffer() {
    assert_eq!(buffer_after(0), GridBuffer::A);
    for n in 1..50 {
        assert_eq!(buffer_after(n), writes(pass_for_iteration(n - 1)));
    }
    assert_eq!(buffer_after(ITERATIONS), GridBuffer::A);
    assert_eq!(buffer_after(ITERATIONS + 1), GridBuffer::B);
}

#[test]
fn workgroups_cover_the_grid() {
    assert_eq!(workgroup_count(WIDTH as u32, WORKGROUP_SIZE_X), 76);
    assert_eq!(workgroup_count(HEIGHT as u32, WORKGROUP_SIZE_Y), 76);
    assert_eq!(workgroup_count(0, 16), 0);
    assert_eq!(workgroup_count(1, 16), 1);
    assert_eq!(workgroup_count(16, 16), 1);
    assert_eq!(workgroup_count(17, 16), 2);
    assert_eq!(workgroup_count(1216, 16), 76);
    assert_eq!(workgroup_count(1217, 16), 77);
}

#[test]
fn buffer_size_is_four_bytes_per_cell() {
    assert_eq!(grid_buffer_size(WIDTH * HEIGHT), 5_798_464);
    assert_eq!(grid_buffer_size(0), 0);
    assert_eq!(grid_buffer_size(3), 12);
}
