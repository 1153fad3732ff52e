use lantir::sbt::{align_up_u64, compute_sbt_layout, pack_shader_binding_table, sbt_regions, RtPipelineProperties, RtSbtDesc};

fn props(handle_size: u32, handle_alignment: u32, base_alignment: u32) -> RtPipelineProperties {
    RtPipelineProperties {
        shader_group_handle_size: handle_size,
        shader_group_handle_alignment: handle_alignment,
        shader_group_base_alignment: base_alignment,
    }
}

#[test]
fn align_up_rounds_to_power_of_two() {
    assert_eq!(align_up_u64(0, 64), 0);
    assert_eq!(align_up_u64(1, 64), 64);
    assert_eq!(align_up_u64(64, 64), 64);
    assert_eq!(align_up_u64(65, 64), 128);
    assert_eq!(align_up_u64(37, 1), 37);
}

#[test]
fn sbt_layout_of_typical_device() {
    let l = compute_sbt_layout(props(32, 32, 64), RtSbtDesc { num_miss_groups: 2, num_hit_groups: 1 });
    assert_eq!(l.handle_size, 32);
    assert_eq!(l.entry_stride, 32);
    assert_eq!(l.raygen_offset, 0);
    assert_eq!(l.raygen_size, 32);
    assert_eq!(l.miss_offset, 64);
    assert_eq!(l.miss_size, 64);
    assert_eq!(l.hit_offset, 128);
    assert_eq!(l.hit_size, 64);
    assert_eq!(l.total_size, 192);
}

#[test]
fn sbt_layout_pads_small_handles() {
    let l = compute_sbt_layout(props(16, 32, 64), RtSbtDesc { num_miss_groups: 3, num_hit_groups: 2 });
    assert_eq!(l.entry_stride, 32);
    assert_eq!(l.miss_offset, 64);
    assert_eq!(l.miss_size, 128);
    assert_eq!(l.hit_offset, 192);
    assert_eq!(l.hit_size, 64);
    assert_eq!(l.total_size, 256);
}

#[test]
fn sbt_layout_without_miss_or_hit_groups() {
    let l = compute_sbt_layout(props(32, 32, 64), RtSbtDesc { num_miss_groups: 0, num_hit_groups: 0 });
    assert_eq!(l.miss_size, 0);
    assert_eq!(l.hit_size, 0);
    assert_eq!(l.hit_offset, 64);
    assert_eq!(l.total_size, 64);
}

#[test]
fn packed_table_holds_each_group_handle_in_its_entry() {
    let l = compute_sbt_layout(props(32, 32, 64), RtSbtDesc { num_miss_groups: 2, num_hit_groups: 1 });
    let mut handles = Vec::new();
    for g in 0..4u8 {
        handles.extend(std::iter::repeat(g + 1).take(32));
    }
    let sbt = pack_shader_binding_table(&l, &handles);
    assert_eq!(sbt.len(), 192);
    assert!(sbt[0..32].iter().all(|&b| b == 1));
    assert!(sbt[32..64].iter().all(|&b| b == 0));
    assert!(sbt[64..96].iter().all(|&b| b == 2));
    assert!(sbt[96..128].iter().all(|&b| b == 3));
    assert!(sbt[128..160].iter().all(|&b| b == 4));
    assert!(sbt[160..192].iter().all(|&b| b == 0));
}

#[test]
fn packed_table_keeps_handle_bytes_in_order() {
    let l = compute_sbt_layout(props(4, 8, 16), RtSbtDesc { num_miss_groups: 1, num_hit_groups: 1 });
    let handles: Vec<u8> = (0..12u8).collect();
    let sbt = pack_shader_binding_table(&l, &handles);
    assert_eq!(l.total_size, 48);
    assert_eq!(&sbt[0..4], &[0, 1, 2, 3]);
    assert_eq!(&sbt[16..20], &[4, 5, 6, 7]);
    assert_eq!(&sbt[32..36], &[8, 9, 10, 11]);
    assert_eq!(&sbt[4..16], &[0u8; 12]);
}

#[test]
fn regions_are_based_at_table_address() {
    let l = compute_sbt_layout(props(32, 32, 64), RtSbtDesc { num_miss_groups: 2, num_hit_groups: 1 });
    let r = sbt_regions(&l, 0x1000);
    assert_eq!(r.raygen_region.device_address, 0x1000);
    assert_eq!(r.raygen_region.stride, 32);
    assert_eq!(r.raygen_region.size, 32);
    assert_eq!(r.miss_region.device_address, 0x1040);
    assert_eq!(r.miss_region.stride, 32);
    assert_eq!(r.miss_region.size, 64);
    assert_eq!(r.hit_region.device_address, 0x1080);
    assert_eq!(r.hit_region.size, 64);
    assert_eq!(r.callable_region.device_address, 0);
    assert_eq!(r.callable_region.size, 0);
}

#[test]
fn align_up_reaches_the_last_aligned_value() {
    assert_eq!(align_up_u64(u64::MAX - 7, 8), u64::MAX - 7);
    assert_eq!(align_up_u64(u64::MAX - 14, 8), u64::MAX - 7);
    assert_eq!(align_up_u64(u64::MAX, 1), u64::MAX);
    assert_eq!(align_up_u64(5, 8), 8);
}
