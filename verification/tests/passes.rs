use lantir::passes::blend_mode_value;
use ash::vk;
use lantir::passes::{
    color_blend_attachments, create_color_blend_attachment, pbr_draw_order, pbr_pass_name, pbr_pipeline_options,
    indirect_draw_call, BlendingMode, IndirectDrawCall, PbrBlendMode, COMPARE_OP_GREATER_OR_EQUAL,
    DRAW_INDEXED_INDIRECT_STRIDE, FORMAT_D32_SFLOAT, BLEND_FACTOR_ONE, BLEND_FACTOR_ONE_MINUS_SRC_ALPHA, BLEND_FACTOR_SRC_ALPHA,
    BLEND_FACTOR_ZERO, BLEND_OP_ADD, COLOR_COMPONENT_RGBA,
};

#[test]
fn blend_constants_match_vulkan() {
    assert_eq!(BLEND_FACTOR_ZERO, vk::BlendFactor::ZERO.as_raw());
    assert_eq!(BLEND_FACTOR_ONE, vk::BlendFactor::ONE.as_raw());
    assert_eq!(BLEND_FACTOR_SRC_ALPHA, vk::BlendFactor::SRC_ALPHA.as_raw());
    assert_eq!(BLEND_FACTOR_ONE_MINUS_SRC_ALPHA, vk::BlendFactor::ONE_MINUS_SRC_ALPHA.as_raw());
    assert_eq!(BLEND_OP_ADD, vk::BlendOp::ADD.as_raw());
    assert_eq!(COLOR_COMPONENT_RGBA, vk::ColorComponentFlags::RGBA.as_raw());
}

#[test]
fn alpha_blend_weights_destination_by_inverse_alpha() {
    let b = create_color_blend_attachment(BlendingMode::AlphaBlend);
    assert!(b.blend_enable);
    assert_eq!(b.src_color_blend_factor, BLEND_FACTOR_SRC_ALPHA);
    assert_eq!(b.dst_color_blend_factor, BLEND_FACTOR_ONE_MINUS_SRC_ALPHA);
    assert_eq!(b.src_alpha_blend_factor, BLEND_FACTOR_ONE);
    assert_eq!(b.dst_alpha_blend_factor, BLEND_FACTOR_ZERO);
    assert_eq!(b.color_write_mask, COLOR_COMPONENT_RGBA);
}

#[test]
fn additive_and_no_blend_modes() {
    let add = create_color_blend_attachment(BlendingMode::Additive);
    assert!(add.blend_enable);
    assert_eq!(add.dst_color_blend_factor, BLEND_FACTOR_ONE);
    let none = create_color_blend_attachment(BlendingMode::NoBlend);
    assert!(!none.blend_enable);
    assert_eq!(none.dst_color_blend_factor, BLEND_FACTOR_ZERO);
    let all = color_blend_attachments(BlendingMode::Additive, 3);
    assert_eq!(all.len(), 4);
    assert!(all.iter().all(|a| *a == add));
}

#[test]
fn pbr_pipelines_per_blend_mode() {
    let o = pbr_pipeline_options(PbrBlendMode::Opaque);
    assert_eq!((o.alpha_test, o.enable_depth_write, o.blending_mode), (0, true, BlendingMode::NoBlend));
    let m = pbr_pipeline_options(PbrBlendMode::Masked);
    assert_eq!((m.alpha_test, m.enable_depth_write, m.blending_mode), (1, true, BlendingMode::NoBlend));
    let t = pbr_pipeline_options(PbrBlendMode::Transparent);
    assert_eq!((t.alpha_test, t.enable_depth_write, t.blending_mode), (0, false, BlendingMode::AlphaBlend));
}

#[test]
fn pbr_pass_names() {
    assert_eq!(pbr_pass_name(PbrBlendMode::Opaque), "PbrPass::Opaque");
    assert_eq!(pbr_pass_name(PbrBlendMode::Masked), "PbrPass::Masked");
    assert_eq!(pbr_pass_name(PbrBlendMode::Transparent), "PbrPass::Transparent");
}

#[test]
fn opaque_pass_draws_its_items_in_scene_order() {
    let modes = [
        PbrBlendMode::Opaque,
        PbrBlendMode::Transparent,
        PbrBlendMode::Opaque,
        PbrBlendMode::Masked,
        PbrBlendMode::Opaque,
    ];
    assert_eq!(pbr_draw_order(PbrBlendMode::Opaque, &modes, &[]), vec![0, 2, 4]);
    assert_eq!(pbr_draw_order(PbrBlendMode::Masked, &modes, &[]), vec![3]);
}

#[test]
fn transparent_pass_draws_back_to_front() {
    let modes = [
        PbrBlendMode::Transparent,
        PbrBlendMode::Opaque,
        PbrBlendMode::Transparent,
        PbrBlendMode::Transparent,
        PbrBlendMode::Transparent,
    ];
    let keys = [-5_000_000, -100, -9_000_000, -5_000_000, 0];
    assert_eq!(pbr_draw_order(PbrBlendMode::Transparent, &modes, &keys), vec![2, 0, 3, 4]);
}

#[test]
fn no_items_no_draws() {
    assert_eq!(pbr_draw_order(PbrBlendMode::Transparent, &[], &[]), Vec::<usize>::new());
}

#[test]
fn blend_modes_are_numbered_for_shaders() {
    assert_eq!(blend_mode_value(PbrBlendMode::Opaque), 0);
    assert_eq!(blend_mode_value(PbrBlendMode::Masked), 1);
    assert_eq!(blend_mode_value(PbrBlendMode::Transparent), 2);
}

#[test]
fn passes_share_out_the_draw_items() {
    let modes = [
        PbrBlendMode::Masked,
        PbrBlendMode::Transparent,
        PbrBlendMode::Opaque,
        PbrBlendMode::Transparent,
        PbrBlendMode::Masked,
    ];
    let keys = [0, 7, 0, -7, 0];
    let mut all: Vec<usize> = Vec::new();
    for mode in [PbrBlendMode::Opaque, PbrBlendMode::Masked, PbrBlendMode::Transparent] {
        let order = pbr_draw_order(mode, &modes, &keys);
        assert!(order.iter().all(|&i| modes[i] == mode));
        all.extend(order);
    }
    all.sort();
    assert_eq!(all, vec![0, 1, 2, 3, 4]);
}

#[test]
fn pbr_pipelines_use_reverse_depth() {
    assert_eq!(COMPARE_OP_GREATER_OR_EQUAL, vk::CompareOp::GREATER_OR_EQUAL.as_raw());
    assert_eq!(FORMAT_D32_SFLOAT, vk::Format::D32_SFLOAT.as_raw());
    for mode in [PbrBlendMode::Opaque, PbrBlendMode::Masked, PbrBlendMode::Transparent] {
        let o = pbr_pipeline_options(mode);
        assert_eq!(o.depth_compare_op, COMPARE_OP_GREATER_OR_EQUAL);
        assert_eq!(o.depth_format, FORMAT_D32_SFLOAT);
    }
}

#[test]
fn indirect_draw_is_skipped_without_commands() {
    assert_eq!(DRAW_INDEXED_INDIRECT_STRIDE as usize, std::mem::size_of::<vk::DrawIndexedIndirectCommand>());
    assert_eq!(indirect_draw_call(7, 0), None);
    assert_eq!(
        indirect_draw_call(3, 4),
        Some(IndirectDrawCall { offset: 60, draw_count: 4, stride: 20 })
    );
    assert_eq!(
        indirect_draw_call(u32::MAX, 1),
        Some(IndirectDrawCall { offset: u32::MAX as u64 * 20, draw_count: 1, stride: 20 })
    );
}
