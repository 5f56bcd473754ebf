use vehicle_controller::handle::{flat_handle, handle_parts};

#[test]
fn packs_index_low_and_generation_high() {
    assert_eq!(flat_handle(7, 2), 7 + (2u64 << 32));
    assert_eq!(flat_handle(0, 0), 0);
    assert_eq!(flat_handle(u32::MAX, 0), 0xffff_ffff);
    assert_eq!(flat_handle(0, 1), 0x1_0000_0000);
    assert_eq!(flat_handle(u32::MAX, u32::MAX), u64::MAX);
}

#[test]
fn splits_packed_bits() {
    assert_eq!(handle_parts(7 + (2u64 << 32)), (7, 2));
    assert_eq!(handle_parts(u64::MAX), (u32::MAX, u32::MAX));
    assert_eq!(handle_parts(0x1_0000_0000), (0, 1));
}

#[test]
fn packing_round_trips() {
    for &(i, g) in &[(0u32, 0u32), (1, 0), (0, 1), (12345, 678), (u32::MAX, 3)] {
        assert_eq!(handle_parts(flat_handle(i, g)), (i, g));
    }
    for &b in &[0u64, 1, 0xdead_beef_0000_0001, u64::MAX] {
        let (i, g) = handle_parts(b);
        assert_eq!(flat_handle(i, g), b);
    }
}

#[test]
fn packed_bits_match_rapier_raw_parts() {
    let h = rapier3d::dynamics::RigidBodyHandle::from_raw_parts(41, 9);
    let (i, g) = h.into_raw_parts();
    assert_eq!(handle_parts(flat_handle(i, g)), (41, 9));
}
