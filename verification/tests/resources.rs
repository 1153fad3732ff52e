use ash::vk;
use lantir::resources::{meta_descriptor_bindings, DESCRIPTOR_TYPE_ACCELERATION_STRUCTURE_KHR, DESCRIPTOR_TYPE_SAMPLED_IMAGE, DESCRIPTOR_TYPE_SAMPLER, DESCRIPTOR_TYPE_STORAGE_BUFFER, DESCRIPTOR_TYPE_UNIFORM_BUFFER, SHADER_STAGE_ALL, SHADER_STAGE_CLOSEST_HIT_KHR, SHADER_STAGE_RAYGEN_KHR};
use lantir::frames::{FrameRing, RenderEngineConfig};
use lantir::passes::{indirect_draw_commands, pbr_pass_draws, DrawIndexedIndirectCommand, IndirectDrawCall, PbrBlendMode};
use lantir::resources::{
    align_up_256, pack_instance_custom_index_and_mask, replica_count, replica_index, tlas_instance_data_size,
    GpuBuffer, MirroredBuffer, SkyboxBindings, ResourceElementSizes, ResourceError, ResourceManager, UpdateFrequency,
    MAX_SAMPLERS, MAX_TEXTURES, INVALID_RESOURCE_HANDLE, DEFAULT_SAMPLER_HANDLE,
};

fn sizes() -> ResourceElementSizes {
    ResourceElementSizes { vertex: 48, draw_item: 160, indirect_command: 20, material: 96 }
}

fn manager() -> ResourceManager<u32> {
    ResourceManager::new(2, sizes())
}

#[test]
fn replicas_follow_update_frequency() {
    assert_eq!(replica_count(UpdateFrequency::Static, 3), 1);
    assert_eq!(replica_count(UpdateFrequency::PerFrame, 3), 3);
    assert_eq!(replica_index(1, 2), 0);
    assert_eq!(replica_index(3, 2), 2);
}

#[test]
fn gpu_buffer_appends_until_full() {
    let mut b = GpuBuffer::new(10, 4, UpdateFrequency::PerFrame);
    assert_eq!(b.capacity_bytes(), 40);
    assert_eq!(b.add(0), Ok(0));
    assert_eq!(b.add(4), Ok(0));
    assert_eq!(b.add(6), Ok(4));
    assert_eq!(b.len(), 10);
    assert_eq!(b.add(1), Err(ResourceError::BufferOverflow));
    assert_eq!(b.len(), 10);
    let region = b.copy_region(4, 6);
    assert_eq!(region.src_offset, 0);
    assert_eq!(region.dst_offset, 16);
    assert_eq!(region.size, 24);
    b.clear();
    assert_eq!(b.len(), 0);
}

#[test]
fn mirrored_buffer_reads_back_what_was_added() {
    let mut m: MirroredBuffer<u64> = MirroredBuffer::new(2, 8);
    assert_eq!(m.capacity_bytes(), 16);
    assert_eq!(m.add(11), Ok(0));
    assert_eq!(m.add(22), Ok(1));
    assert_eq!(m.add(33), Err(ResourceError::BufferOverflow));
    assert_eq!(m.len(), 2);
    assert_eq!(m.get(0), 11);
    assert_eq!(m.get(1), 22);
}

#[test]
fn handle_constants() {
    assert_eq!(INVALID_RESOURCE_HANDLE, u64::MAX);
    assert_eq!(DEFAULT_SAMPLER_HANDLE, 0);
}

#[test]
fn sampler_handles_follow_the_default_sampler() {
    let mut rm = manager();
    assert_eq!(rm.add_sampler(), Ok(1));
    assert_eq!(rm.add_sampler(), Ok(2));
    for _ in 3..MAX_SAMPLERS {
        assert!(rm.add_sampler().is_ok());
    }
    assert_eq!(rm.add_sampler(), Err(ResourceError::TooManySamplers));
}

#[test]
fn texture_table_fills_up() {
    let mut rm = manager();
    assert_eq!(rm.add_texture(4, 4), Ok(0));
    assert_eq!(rm.add_texture(1, 8), Ok(1));
    for _ in 2..MAX_TEXTURES {
        assert!(rm.add_texture(1, 1).is_ok());
    }
    assert!(rm.texture_table_full());
    assert_eq!(rm.add_texture(1, 1), Err(ResourceError::TooManyTextures));
    assert_eq!(rm.add_texture(0, 0), Err(ResourceError::TooManyTextures));
}

#[test]
fn empty_texture_is_refused() {
    let mut rm = manager();
    assert_eq!(rm.add_texture(0, 16), Err(ResourceError::InvalidTextureExtent));
    assert_eq!(rm.add_texture(16, 0), Err(ResourceError::InvalidTextureExtent));
    assert_eq!(rm.add_texture(16, 16), Ok(0));
}

#[test]
fn meshes_are_placed_one_after_another() {
    let mut rm = manager();
    let a = rm.reserve_mesh(4, 6).unwrap();
    assert_eq!(a.vertex_offset, 0);
    assert_eq!(a.index_offset, 0);
    assert_eq!(a.triangle_count, 2);
    let ha = rm.add_mesh(a, 0x1000);
    let b = rm.reserve_mesh(3, 3).unwrap();
    assert_eq!(b.vertex_offset, 4);
    assert_eq!(b.index_offset, 6);
    let hb = rm.add_mesh(b, 0x2000);
    assert_eq!((ha, hb), (0, 1));
    assert_eq!(rm.get_mesh_index_count(hb), 3);
    assert_eq!(rm.get_mesh_vertex_offset(hb), 4);
    assert_eq!(rm.get_mesh_index_offset(hb), 6);
    assert_eq!(rm.pack_mesh_offsets(hb), 4 | (6u64 << 32));
    let g = ResourceManager::<u32>::blas_geometry(b, 0x10_0000, 0x20_0000, 48);
    assert_eq!(g.vertex_address, 0x10_0000 + 4 * 48);
    assert_eq!(g.index_address, 0x20_0000 + 6 * 4);
    assert_eq!(g.max_vertex, 2);
    assert_eq!(g.primitive_count, 1);
}

#[test]
fn oversized_mesh_is_refused() {
    let mut rm = manager();
    assert_eq!(rm.reserve_mesh(16_000_001, 3), Err(ResourceError::BufferOverflow));
    assert_eq!(rm.reserve_mesh(3, 32_000_001), Err(ResourceError::BufferOverflow));
}

#[test]
fn materials_read_back() {
    let mut rm = manager();
    assert_eq!(rm.add_material(7), Ok(0));
    assert_eq!(rm.add_material(9), Ok(1));
    assert_eq!(rm.get_material(1), 9);
    assert_eq!(rm.get_material(0), 7);
}

#[test]
fn draw_items_and_indirect_commands_are_counted_per_frame() {
    let mut rm = manager();
    assert_eq!(rm.set_draw_items(3), Ok(()));
    assert_eq!(rm.set_draw_items(16_385), Err(ResourceError::BufferOverflow));
    assert_eq!(rm.add_indirect_draw_commands(5), Ok(0));
    assert_eq!(rm.add_indirect_draw_commands(2), Ok(5));
    rm.reset_global_indirect_buffer();
    assert_eq!(rm.add_indirect_draw_commands(1), Ok(0));
}

#[test]
fn tlas_instances_name_their_draw_items() {
    let mut rm = manager();
    let a = rm.reserve_mesh(3, 3).unwrap();
    let ha = rm.add_mesh(a, 0xA000);
    let e = rm.reserve_mesh(0, 0).unwrap();
    let he = rm.add_mesh(e, 0xE000);
    let items = [ha, he, ha, 99];
    let modes = [PbrBlendMode::Opaque, PbrBlendMode::Opaque, PbrBlendMode::Masked];
    let built = rm.build_tlas_for_items(&items[0..3], &modes);
    assert_eq!(built.len(), 2);
    assert_eq!(built[0].draw_item_index, 0);
    assert_eq!(built[1].draw_item_index, 2);
    assert_eq!(built[1].blas_address, 0xA000);
    assert_eq!(built[1].instance_custom_index_and_mask, 2 | (0xFF << 24));
    let per_frame = rm.per_frame_tlas_instances(&items);
    assert_eq!(per_frame.len(), 3);
    assert_eq!(per_frame[1].blas_address, 0xE000);
    assert_eq!(rm.tlas_slot_count(), 2);
}

#[test]
fn transparent_items_stay_out_of_the_tlas() {
    let mut rm = manager();
    let a = rm.reserve_mesh(3, 3).unwrap();
    let ha = rm.add_mesh(a, 0xA000);
    let items = [ha, ha, ha];
    let modes = [PbrBlendMode::Transparent, PbrBlendMode::Masked, PbrBlendMode::Transparent];
    let built = rm.build_tlas_for_items(&items, &modes);
    assert_eq!(built.len(), 1);
    assert_eq!(built[0].draw_item_index, 1);
    let all_transparent = [PbrBlendMode::Transparent; 3];
    assert!(rm.build_tlas_for_items(&items, &all_transparent).is_empty());
}

#[test]
fn frame_slot_tlas_is_replaced_only_with_instances() {
    let mut rm = manager();
    let a = rm.reserve_mesh(3, 3).unwrap();
    let ha = rm.add_mesh(a, 0xA000);
    assert_eq!(*rm.tlas_slot(0), None);
    assert_eq!(*rm.tlas_slot(1), None);
    assert!(rm.update_tlas(1, &[99, ha]));
    let slot = rm.tlas_slot(1).clone().unwrap();
    assert_eq!(slot.len(), 1);
    assert_eq!(slot[0].draw_item_index, 1);
    assert_eq!(slot[0].blas_address, 0xA000);
    assert_eq!(*rm.tlas_slot(0), None);
    assert!(!rm.update_tlas(1, &[99]));
    assert_eq!(rm.tlas_slot(1).clone().unwrap(), slot);
    assert!(!rm.update_tlas(0, &[]));
    assert_eq!(*rm.tlas_slot(0), None);
}

#[test]
fn instance_fields_are_packed() {
    assert_eq!(pack_instance_custom_index_and_mask(5, 0xFF), 0xFF00_0005);
    assert_eq!(pack_instance_custom_index_and_mask(0x0123_4567, 0x01), 0x0123_4567);
    assert_eq!(align_up_256(0), 0);
    assert_eq!(align_up_256(1), 256);
    assert_eq!(align_up_256(512), 512);
    assert_eq!(align_up_256(u64::MAX - 255), u64::MAX - 255);
    assert_eq!(align_up_256(u64::MAX - 510), u64::MAX - 255);
    assert_eq!(tlas_instance_data_size(0), None);
    assert_eq!(tlas_instance_data_size(3), Some(192));
}

#[test]
fn indirect_commands_draw_each_item_once() {
    let mut rm = manager();
    let a = rm.reserve_mesh(4, 6).unwrap();
    let ha = rm.add_mesh(a, 1);
    let b = rm.reserve_mesh(3, 3).unwrap();
    let hb = rm.add_mesh(b, 2);
    let cmds = indirect_draw_commands(&rm, &vec![2, 0], &[ha, ha, hb]);
    assert_eq!(
        cmds,
        vec![
            DrawIndexedIndirectCommand { index_count: 3, instance_count: 1, first_index: 6, vertex_offset: 4, first_instance: 2 },
            DrawIndexedIndirectCommand { index_count: 6, instance_count: 1, first_index: 0, vertex_offset: 0, first_instance: 0 },
        ]
    );
}

#[test]
fn released_resources_wait_one_full_cycle() {
    let mut ring: FrameRing<u32> = FrameRing::new(&RenderEngineConfig { debug: true, frames_in_flight: 2 });
    assert!(!ring.is_started());
    assert_eq!(ring.frames_in_flight(), 2);
    assert_eq!(ring.get_current_frame_index(), 0);
    ring.schedule_resource_release(1);
    assert_eq!(ring.begin_frame(), Vec::<u32>::new());
    assert!(ring.is_started());
    assert_eq!(ring.get_current_frame_index(), 1);
    ring.schedule_resource_release(2);
    ring.schedule_resource_release(3);
    assert_eq!(ring.begin_frame(), vec![1]);
    assert_eq!(ring.get_current_frame_index(), 0);
    assert_eq!(ring.begin_frame(), vec![2, 3]);
    assert_eq!(ring.begin_frame(), Vec::<u32>::new());
}

#[test]
fn drain_releases_everything_pending() {
    let mut ring: FrameRing<u32> = FrameRing::new(&RenderEngineConfig { debug: false, frames_in_flight: 3 });
    ring.enqueue_drop(2, 5);
    ring.enqueue_drop(0, 4);
    ring.enqueue_drop(2, 6);
    assert_eq!(ring.cleanup_resources(1), Vec::<u32>::new());
    assert_eq!(ring.drain_all(), vec![4, 5, 6]);
    assert_eq!(ring.drain_all(), Vec::<u32>::new());
}

#[test]
fn meta_descriptor_layout_matches_vulkan_values() {
    assert_eq!(DESCRIPTOR_TYPE_SAMPLER, vk::DescriptorType::SAMPLER.as_raw());
    assert_eq!(DESCRIPTOR_TYPE_SAMPLED_IMAGE, vk::DescriptorType::SAMPLED_IMAGE.as_raw());
    assert_eq!(DESCRIPTOR_TYPE_UNIFORM_BUFFER, vk::DescriptorType::UNIFORM_BUFFER.as_raw());
    assert_eq!(DESCRIPTOR_TYPE_STORAGE_BUFFER, vk::DescriptorType::STORAGE_BUFFER.as_raw());
    assert_eq!(
        DESCRIPTOR_TYPE_ACCELERATION_STRUCTURE_KHR,
        vk::DescriptorType::ACCELERATION_STRUCTURE_KHR.as_raw()
    );
    assert_eq!(SHADER_STAGE_ALL, vk::ShaderStageFlags::ALL.as_raw());
    assert_eq!(SHADER_STAGE_RAYGEN_KHR, vk::ShaderStageFlags::RAYGEN_KHR.as_raw());
    assert_eq!(SHADER_STAGE_CLOSEST_HIT_KHR, vk::ShaderStageFlags::CLOSEST_HIT_KHR.as_raw());
    let b = meta_descriptor_bindings();
    let numbers: Vec<u32> = b.iter().map(|x| x.binding).collect();
    assert_eq!(numbers, vec![0, 1, 2, 4, 3, 5, 6, 7]);
    assert_eq!(b[2].count, 1024);
    assert_eq!(b[2].descriptor_type, DESCRIPTOR_TYPE_SAMPLED_IMAGE);
    assert_eq!(b[7].stages, SHADER_STAGE_RAYGEN_KHR | SHADER_STAGE_CLOSEST_HIT_KHR);
}

#[test]
fn skybox_images_take_four_texture_slots() {
    let mut rm = manager();
    assert_eq!(rm.add_texture(2, 2), Ok(0));
    let b = rm.set_skybox_image((64, 32), (32, 16), (96, 64), (512, 512)).unwrap();
    assert_eq!(
        b,
        SkyboxBindings {
            tex: 1,
            sampler: 0,
            irradiance_tex: 2,
            irradiance_sampler: 0,
            prefiltered_tex: 3,
            prefiltered_sampler: 0,
            brdf_lut_tex: 4,
            brdf_lut_sampler: 0,
        }
    );
    assert_eq!(rm.add_texture(1, 1), Ok(5));
}

#[test]
fn refused_skybox_image_stops_the_uploads() {
    let mut rm = manager();
    assert_eq!(rm.set_skybox_image((8, 8), (8, 8), (0, 8), (8, 8)), Err(ResourceError::InvalidTextureExtent));
    assert_eq!(rm.add_texture(1, 1), Ok(2));
    for _ in 3..MAX_TEXTURES - 1 {
        assert!(rm.add_texture(1, 1).is_ok());
    }
    assert_eq!(rm.set_skybox_image((8, 8), (8, 8), (8, 8), (8, 8)), Err(ResourceError::TooManyTextures));
    assert!(rm.texture_table_full());
}

#[test]
fn pbr_pass_appends_its_commands_and_draws_them_once() {
    let mut rm = manager();
    let a = rm.reserve_mesh(4, 6).unwrap();
    let ha = rm.add_mesh(a, 1);
    let b = rm.reserve_mesh(3, 3).unwrap();
    let hb = rm.add_mesh(b, 2);
    assert_eq!(rm.add_indirect_draw_commands(3), Ok(0));
    let modes = [PbrBlendMode::Opaque, PbrBlendMode::Transparent, PbrBlendMode::Opaque, PbrBlendMode::Transparent];
    let meshes = [ha, hb, hb, ha];
    let keys = [0, 5, 0, -7];

    let (order, cmds, call) = pbr_pass_draws(&mut rm, PbrBlendMode::Opaque, &modes, &keys, &meshes).unwrap();
    assert_eq!(order, vec![0, 2]);
    assert_eq!(cmds.len(), 2);
    assert_eq!(cmds[1].first_instance, 2);
    assert_eq!(cmds[1].index_count, 3);
    assert_eq!(cmds[1].first_index, 6);
    assert_eq!(cmds[1].vertex_offset, 4);
    assert_eq!(call, Some(IndirectDrawCall { offset: 60, draw_count: 2, stride: 20 }));

    let (order, _, call) = pbr_pass_draws(&mut rm, PbrBlendMode::Transparent, &modes, &keys, &meshes).unwrap();
    assert_eq!(order, vec![3, 1]);
    assert_eq!(call, Some(IndirectDrawCall { offset: 100, draw_count: 2, stride: 20 }));

    let (order, cmds, call) = pbr_pass_draws(&mut rm, PbrBlendMode::Masked, &modes, &keys, &meshes).unwrap();
    assert!(order.is_empty() && cmds.is_empty());
    assert_eq!(call, None);
    assert_eq!(rm.add_indirect_draw_commands(1), Ok(7));
}

#[test]
fn placements_take_nothing_until_committed() {
    let mut rm = manager();
    assert_eq!(rm.texture_slot(4, 4), Ok(0));
    assert_eq!(rm.texture_slot(0, 4), Err(ResourceError::InvalidTextureExtent));
    assert_eq!(rm.texture_slot(4, 4), Ok(0));
    assert_eq!(rm.add_texture(4, 4), Ok(0));
    assert_eq!(rm.texture_slot(4, 4), Ok(1));

    let a = rm.mesh_placement(4, 6).unwrap();
    assert_eq!((a.vertex_offset, a.index_offset, a.triangle_count), (0, 0, 2));
    assert_eq!(rm.mesh_placement(4, 6).unwrap(), a);
    assert_eq!(rm.reserve_mesh(4, 6).unwrap(), a);
    let b = rm.mesh_placement(3, 3).unwrap();
    assert_eq!((b.vertex_offset, b.index_offset), (4, 6));
    assert_eq!(rm.mesh_placement(16_000_000, 3), Err(ResourceError::BufferOverflow));
    assert_eq!(rm.mesh_placement(3, 32_000_000), Err(ResourceError::BufferOverflow));
    assert_eq!(rm.reserve_mesh(3, 3).unwrap(), b);

    let mut buf = GpuBuffer::new(4, 16, UpdateFrequency::Static);
    assert_eq!(buf.placement(3), Ok(0));
    assert_eq!(buf.placement(5), Err(ResourceError::BufferOverflow));
    assert_eq!(buf.len(), 0);
    assert_eq!(buf.add(3), Ok(0));
    assert_eq!(buf.placement(0), Ok(3));
    assert_eq!(buf.placement(1), Ok(3));
    assert_eq!(buf.placement(2), Err(ResourceError::BufferOverflow));
}
