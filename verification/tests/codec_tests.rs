use game_of_life_gpu::codec::{cells_from_readback, cells_to_ne_bytes, shader_params_bytes};

#[test]
fn cells_take_four_bytes_each_in_machine_order() {
    let bytes = cells_to_ne_bytes(&[1, -1, 0x0102_0304]);
    assert_eq!(bytes.len(), 12);
    assert_eq!(&bytes[0..4], &1i32.to_ne_bytes());
    assert_eq!(&bytes[4..8], &[0xFF, 0xFF, 0xFF, 0xFF]);
    let last = &bytes[8..12];
    assert!(last == [4, 3, 2, 1] || last == [1, 2, 3, 4]);
    assert_eq!(i32::from_ne_bytes([last[0], last[1], last[2], last[3]]), 0x0102_0304);
}

#[test]
fn no_cells_no_bytes() {
    assert!(cells_to_ne_bytes(&[]).is_empty());
}

#[test]
fn shader_params_are_width_then_height() {
    let bytes = shader_params_bytes(1204, 7);
    assert_eq!(bytes.len(), 8);
    assert_eq!(u32::from_ne_bytes([bytes[0], bytes[1], bytes[2], bytes[3]]), 1204);
    assert_eq!(u32::from_ne_bytes([bytes[4], bytes[5], bytes[6], bytes[7]]), 7);
}

#[test]
fn readback_turns_words_into_cells() {
    let words = vec![0u32, 1, 0xFFFF_FFFE];
    let cells = cells_from_readback(bytemuck::cast_slice(&words)).unwrap();
    assert_eq!(cells, vec![0, 1, -2]);
}

#[test]
fn readback_of_cells_written_gives_them_back() {
    let cells = vec![3, -3, 0, 1, i32::MIN];
    let bytes = cells_to_ne_bytes(&cells);
    let mut words = vec![0u32; cells.len()];
    bytemuck::cast_slice_mut::<u32, u8>(&mut words).copy_from_slice(&bytes);
    assert_eq!(cells_from_readback(bytemuck::cast_slice(&words)).unwrap(), cells);
}

#[test]
fn cast_words_become_cells_of_the_same_bits() {
    let cells = game_of_life_gpu::codec::cells_from_cast(Ok(vec![7, 0xFFFF_FFFF, 0x8000_0000]));
    assert_eq!(cells, Some(vec![7, -1, i32::MIN]));
    let failed = game_of_life_gpu::codec::cells_from_cast(Err(
        bytemuck::PodCastError::TargetAlignmentGreaterAndInputNotAligned,
    ));
    assert_eq!(failed, None);
}
