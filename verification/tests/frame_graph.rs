use ash::vk;
use lantir::barriers::{AccessType, ImageLayout};
use lantir::config::Extent2D;
use lantir::frame_graph::{
    bgra_to_rgba, forward_frame_steps, frame_steps, render_targets, run_passes, FrameImage, FrameStep, FORMAT_B8G8R8A8_UNORM,
    FORMAT_D32_SFLOAT, FORMAT_R16G16B16A16_SFLOAT, FORMAT_R16G16_SFLOAT, FORMAT_R8G8B8A8_UNORM, FORMAT_R8G8_UNORM,
    IMAGE_USAGE_COLOR_ATTACHMENT, IMAGE_USAGE_DEPTH_STENCIL_ATTACHMENT, IMAGE_USAGE_SAMPLED, IMAGE_USAGE_STORAGE,
    IMAGE_USAGE_TRANSFER_DST, IMAGE_USAGE_TRANSFER_SRC,
};
use lantir::passes::PbrBlendMode;
use std::collections::HashMap;

#[test]
fn format_and_usage_constants_match_vulkan() {
    assert_eq!(FORMAT_R8G8_UNORM, vk::Format::R8G8_UNORM.as_raw());
    assert_eq!(FORMAT_R8G8B8A8_UNORM, vk::Format::R8G8B8A8_UNORM.as_raw());
    assert_eq!(FORMAT_B8G8R8A8_UNORM, vk::Format::B8G8R8A8_UNORM.as_raw());
    assert_eq!(FORMAT_R16G16_SFLOAT, vk::Format::R16G16_SFLOAT.as_raw());
    assert_eq!(FORMAT_R16G16B16A16_SFLOAT, vk::Format::R16G16B16A16_SFLOAT.as_raw());
    assert_eq!(FORMAT_D32_SFLOAT, vk::Format::D32_SFLOAT.as_raw());
    assert_eq!(IMAGE_USAGE_TRANSFER_SRC, vk::ImageUsageFlags::TRANSFER_SRC.as_raw());
    assert_eq!(IMAGE_USAGE_TRANSFER_DST, vk::ImageUsageFlags::TRANSFER_DST.as_raw());
    assert_eq!(IMAGE_USAGE_SAMPLED, vk::ImageUsageFlags::SAMPLED.as_raw());
    assert_eq!(IMAGE_USAGE_STORAGE, vk::ImageUsageFlags::STORAGE.as_raw());
    assert_eq!(IMAGE_USAGE_COLOR_ATTACHMENT, vk::ImageUsageFlags::COLOR_ATTACHMENT.as_raw());
    assert_eq!(IMAGE_USAGE_DEPTH_STENCIL_ATTACHMENT, vk::ImageUsageFlags::DEPTH_STENCIL_ATTACHMENT.as_raw());
}

#[test]
fn render_targets_in_creation_order() {
    let extent = Extent2D { width: 640, height: 480 };
    let t = render_targets(extent);
    let images: Vec<FrameImage> = t.iter().map(|d| d.image).collect();
    assert_eq!(
        images,
        vec![
            FrameImage::Color,
            FrameImage::Depth,
            FrameImage::GbufNormal,
            FrameImage::GbufAlbedo,
            FrameImage::GbufRoughnessMetal,
            FrameImage::GbufMotion,
        ]
    );
    assert_eq!(t[0].format, FORMAT_B8G8R8A8_UNORM);
    assert_eq!(t[0].usage, 0x1F);
    assert_eq!(t[1].format, FORMAT_D32_SFLOAT);
    assert_eq!(t[1].usage, IMAGE_USAGE_DEPTH_STENCIL_ATTACHMENT | IMAGE_USAGE_SAMPLED);
    assert_eq!(t[4].format, FORMAT_R8G8_UNORM);
    assert!(t.iter().all(|d| d.extent == extent));
}

#[test]
fn frame_layouts_chain_from_step_to_step() {
    let steps = frame_steps(Extent2D { width: 800, height: 600 }, Extent2D { width: 1024, height: 500 });
    assert_eq!(steps.len(), 31);
    let mut layouts: HashMap<FrameImage, ImageLayout> = HashMap::new();
    layouts.insert(FrameImage::RtOutput, ImageLayout::General);
    for step in &steps {
        if let FrameStep::Barrier(b) = step {
            let current = layouts.get(&b.image).copied().unwrap_or(ImageLayout::Undefined);
            assert!(b.previous_layout == ImageLayout::Undefined || b.previous_layout == current);
            layouts.insert(b.image, b.next_layout);
        }
    }
    assert_eq!(layouts[&FrameImage::Swapchain], ImageLayout::PresentSrc);
    assert_eq!(layouts[&FrameImage::RtOutput], ImageLayout::General);
    assert_eq!(steps[30], FrameStep::Barrier(lantir::frame_graph::PlannedBarrier {
        image: FrameImage::Swapchain,
        previous_access: AccessType::TransferWrite,
        next_access: AccessType::Present,
        previous_layout: ImageLayout::TransferDstOptimal,
        next_layout: ImageLayout::PresentSrc,
        aspect: lantir::barriers::AspectMask::Color,
    }));
    assert!(steps.contains(&FrameStep::CopyToSwapchain { extent: Extent2D { width: 800, height: 500 } }));
    assert_eq!(steps[0], FrameStep::SetViewport { extent: Extent2D { width: 800, height: 600 } });
}

#[test]
fn passes_run_sky_geometry_then_ray_tracing() {
    let extent = Extent2D { width: 8, height: 8 };
    let p = run_passes(extent);
    assert_eq!(p[0], FrameStep::SkyPass);
    assert_eq!(p[1], FrameStep::GeometryPass { blend_mode: PbrBlendMode::Opaque });
    assert_eq!(p[2], FrameStep::GeometryPass { blend_mode: PbrBlendMode::Masked });
    assert!(p.contains(&FrameStep::TraceRays { extent }));
    assert!(p.contains(&FrameStep::CopyRtOutputToColor { extent }));
    assert_eq!(p.len(), 15);
}

#[test]
fn readback_swaps_red_and_blue() {
    let bgra = vec![1, 2, 3, 4, 10, 20, 30, 40];
    let rgba = bgra_to_rgba(&bgra, 2, 1);
    assert_eq!(rgba, vec![3, 2, 1, 4, 30, 20, 10, 40]);
    assert_eq!(bgra_to_rgba(&rgba, 2, 1), bgra);
    assert_eq!(bgra_to_rgba(&[], 0, 5), Vec::<u8>::new());
}

#[test]
fn forward_frame_draws_then_presents() {
    let steps = forward_frame_steps(Extent2D { width: 800, height: 600 }, Extent2D { width: 640, height: 900 });
    assert_eq!(steps.len(), 9);
    assert_eq!(steps[2], FrameStep::SetViewport { extent: Extent2D { width: 800, height: 600 } });
    assert_eq!(steps[3], FrameStep::SetScissor { extent: Extent2D { width: 800, height: 600 } });
    assert_eq!(steps[4], FrameStep::DrawObjects);
    assert_eq!(steps[7], FrameStep::CopyToSwapchain { extent: Extent2D { width: 640, height: 600 } });
    let mut layouts: HashMap<FrameImage, ImageLayout> = HashMap::new();
    for step in &steps {
        if let FrameStep::Barrier(b) = step {
            let current = layouts.get(&b.image).copied().unwrap_or(ImageLayout::Undefined);
            assert!(b.previous_layout == ImageLayout::Undefined || b.previous_layout == current);
            layouts.insert(b.image, b.next_layout);
        }
        if *step == FrameStep::DrawObjects {
            assert_eq!(layouts[&FrameImage::Color], ImageLayout::ColorAttachmentOptimal);
            assert_eq!(layouts[&FrameImage::Depth], ImageLayout::DepthAttachmentOptimal);
        }
    }
    assert_eq!(layouts[&FrameImage::Swapchain], ImageLayout::PresentSrc);
}
