//! The commands the world renderer records for one frame, in order: layout
//! transitions of its render targets, resource updates, the passes, and the copy of
//! the drawn image to the swapchain.

use vstd::prelude::*;
use crate::barriers::{is_write, AccessType, AspectMask, ImageLayout};
use crate::config::Extent2D;
use crate::passes::PbrBlendMode;

verus! {

/// The images a frame touches.
#[derive(Debug, Clone, Copy, PartialEq, Eq, Hash, Structural)]
pub enum FrameImage {
    Color,
    Depth,
    /// World-space normals.
    GbufNormal,
    GbufAlbedo,
    /// Roughness and metalness.
    GbufRoughnessMetal,
    /// Motion vectors.
    GbufMotion,
    /// The swapchain image acquired for this frame.
    Swapchain,
    /// The image the ray-tracing pass writes; it stays in the general layout between
    /// frames.
    RtOutput,
}

/// A layout transition of one frame image between two accesses.
#[derive(Debug, Clone, Copy, PartialEq, Eq, Structural)]
pub struct PlannedBarrier {
    pub image: FrameImage,
    pub previous_access: AccessType,
    pub next_access: AccessType,
    pub previous_layout: ImageLayout,
    pub next_layout: ImageLayout,
    pub aspect: AspectMask,
}

/// One command of a frame.
#[derive(Debug, Clone, Copy, PartialEq, Eq, Structural)]
pub enum FrameStep {
    SetViewport { extent: Extent2D },
    SetScissor { extent: Extent2D },
    Barrier(PlannedBarrier),
    /// Uploads the scene's draw items.
    UploadDrawItems,
    /// Empties the indirect draw buffer.
    ResetIndirectDraws,
    /// Binds the global index buffer (32-bit indices).
    BindIndexBuffer,
    /// Rebuilds the top-level acceleration structure of this frame's slot.
    UpdateTlas,
    SkyPass,
    GeometryPass { blend_mode: PbrBlendMode },
    /// Traces one ray per pixel of this extent into the ray-tracing output.
    TraceRays { extent: Extent2D },
    /// Copies the ray-tracing output over the color target.
    CopyRtOutputToColor { extent: Extent2D },
    /// Copies this region of the color target to the swapchain image.
    CopyToSwapchain { extent: Extent2D },
    /// Draws every render object of a forward-shaded scene into color and depth.
    DrawObjects,
}

/// The transition of `image` (color aspect) from one access and layout to another.
pub open spec fn color_barrier(
    image: FrameImage,
    previous_access: AccessType,
    next_access: AccessType,
    previous_layout: ImageLayout,
    next_layout: ImageLayout,
) -> FrameStep {
    FrameStep::Barrier(
        PlannedBarrier { image, previous_access, next_access, previous_layout, next_layout, aspect: AspectMask::Color },
    )
}

/// The G-buffer images, in the order they are transitioned.
pub open spec fn gbuffer(i: int) -> FrameImage {
    if i == 0 {
        FrameImage::GbufNormal
    } else if i == 1 {
        FrameImage::GbufAlbedo
    } else if i == 2 {
        FrameImage::GbufRoughnessMetal
    } else {
        FrameImage::GbufMotion
    }
}

/// The G-buffer images, discarded and made color attachments.
pub open spec fn gbuffer_clears() -> Seq<FrameStep> {
    Seq::new(
        4,
        |i: int|
            color_barrier(
                gbuffer(i),
                AccessType::Nothing,
                AccessType::ColorAttachmentWrite,
                ImageLayout::Undefined,
                ImageLayout::ColorAttachmentOptimal,
            ),
    )
}

/// The G-buffer images, written as attachments, made readable by ray tracing.
pub open spec fn gbuffer_reads() -> Seq<FrameStep> {
    Seq::new(
        4,
        |i: int|
            color_barrier(
                gbuffer(i),
                AccessType::ColorAttachmentWrite,
                AccessType::RayTracingShaderReadSampledImageOrUniformTexelBuffer,
                ImageLayout::ColorAttachmentOptimal,
                ImageLayout::ShaderReadOnlyOptimal,
            ),
    )
}

/// The transition of the ray-tracing output between two accesses and layouts.
pub open spec fn rt_output_barrier(
    previous_access: AccessType,
    next_access: AccessType,
    previous_layout: ImageLayout,
    next_layout: ImageLayout,
) -> FrameStep {
    color_barrier(FrameImage::RtOutput, previous_access, next_access, previous_layout, next_layout)
}

/// The ray-tracing pass: the previous frame's writes to its output finished, the rays
/// traced, the output copied over the color target, and the output returned to the
/// general layout.
pub open spec fn rt_pass_steps(extent: Extent2D) -> Seq<FrameStep> {
    seq![
        rt_output_barrier(
            AccessType::AnyShaderWrite,
            AccessType::AnyShaderWrite,
            ImageLayout::General,
            ImageLayout::General,
        ),
        FrameStep::TraceRays { extent },
        rt_output_barrier(
            AccessType::AnyShaderWrite,
            AccessType::TransferRead,
            ImageLayout::General,
            ImageLayout::TransferSrcOptimal,
        ),
        color_barrier(
            FrameImage::Color,
            AccessType::ColorAttachmentWrite,
            AccessType::TransferWrite,
            ImageLayout::ColorAttachmentOptimal,
            ImageLayout::TransferDstOptimal,
        ),
        FrameStep::CopyRtOutputToColor { extent },
        color_barrier(
            FrameImage::Color,
            AccessType::TransferWrite,
            AccessType::ColorAttachmentWrite,
            ImageLayout::TransferDstOptimal,
            ImageLayout::ColorAttachmentOptimal,
        ),
        rt_output_barrier(
            AccessType::TransferRead,
            AccessType::AnyShaderWrite,
            ImageLayout::TransferSrcOptimal,
            ImageLayout::General,
        ),
    ]
}

/// The passes and the transitions between them: sky, opaque and masked geometry,
/// then the G-buffer and depth made readable, then ray tracing.
pub open spec fn pass_steps(extent: Extent2D) -> Seq<FrameStep> {
    seq![
        FrameStep::SkyPass,
        FrameStep::GeometryPass { blend_mode: PbrBlendMode::Opaque },
        FrameStep::GeometryPass { blend_mode: PbrBlendMode::Masked },
    ] + gbuffer_reads() + seq![
        FrameStep::Barrier(
            PlannedBarrier {
                image: FrameImage::Depth,
                previous_access: AccessType::DepthStencilAttachmentWrite,
                next_access: AccessType::RayTracingShaderReadSampledImageOrUniformTexelBuffer,
                previous_layout: ImageLayout::DepthAttachmentOptimal,
                next_layout: ImageLayout::DepthReadOnlyOptimal,
                aspect: AspectMask::Depth,
            },
        ),
    ] + rt_pass_steps(extent)
}

/// The commands of one frame drawn at `draw_extent` for a window of `window_extent`.
pub open spec fn frame_steps_spec(draw_extent: Extent2D, window_extent: Extent2D) -> Seq<FrameStep> {
    seq![
        FrameStep::SetViewport { extent: draw_extent },
        FrameStep::SetScissor { extent: draw_extent },
        color_barrier(
            FrameImage::Color,
            AccessType::Nothing,
            AccessType::ColorAttachmentWrite,
            ImageLayout::Undefined,
            ImageLayout::ColorAttachmentOptimal,
        ),
        FrameStep::Barrier(
            PlannedBarrier {
                image: FrameImage::Depth,
                previous_access: AccessType::Nothing,
                next_access: AccessType::DepthStencilAttachmentWrite,
                previous_layout: ImageLayout::Undefined,
                next_layout: ImageLayout::DepthAttachmentOptimal,
                aspect: AspectMask::Depth,
            },
        ),
    ] + gbuffer_clears() + seq![
        FrameStep::UploadDrawItems,
        FrameStep::ResetIndirectDraws,
        FrameStep::BindIndexBuffer,
        FrameStep::UpdateTlas,
    ] + pass_steps(draw_extent) + seq![
        color_barrier(
            FrameImage::Color,
            AccessType::ColorAttachmentWrite,
            AccessType::TransferRead,
            ImageLayout::ColorAttachmentOptimal,
            ImageLayout::TransferSrcOptimal,
        ),
        color_barrier(
            FrameImage::Swapchain,
            AccessType::Nothing,
            AccessType::TransferWrite,
            ImageLayout::Undefined,
            ImageLayout::TransferDstOptimal,
        ),
        FrameStep::CopyToSwapchain { extent: copy_region(draw_extent, window_extent) },
        color_barrier(
            FrameImage::Swapchain,
            AccessType::TransferWrite,
            AccessType::Present,
            ImageLayout::TransferDstOptimal,
            ImageLayout::PresentSrc,
        ),
    ]
}

/// The part of the drawn image that fits the window.
pub open spec fn copy_region(draw_extent: Extent2D, window_extent: Extent2D) -> Extent2D {
    Extent2D {
        width: if window_extent.width <= draw_extent.width { window_extent.width } else { draw_extent.width },
        height: if window_extent.height <= draw_extent.height { window_extent.height } else { draw_extent.height },
    }
}

/// The region copied to the swapchain fits both the drawn image and the window, and
/// is the largest that does: each side is one of the two extents' sides.
pub proof fn lemma_copy_region_fits(draw_extent: Extent2D, window_extent: Extent2D)
    ensures
        copy_region(draw_extent, window_extent).width <= draw_extent.width,
        copy_region(draw_extent, window_extent).width <= window_extent.width,
        copy_region(draw_extent, window_extent).height <= draw_extent.height,
        copy_region(draw_extent, window_extent).height <= window_extent.height,
        copy_region(draw_extent, window_extent).width == draw_extent.width || copy_region(
            draw_extent,
            window_extent,
        ).width == window_extent.width,
        copy_region(draw_extent, window_extent).height == draw_extent.height || copy_region(
            draw_extent,
            window_extent,
        ).height == window_extent.height,
{
}

fn color_barrier_step(
    image: FrameImage,
    previous_access: AccessType,
    next_access: AccessType,
    previous_layout: ImageLayout,
    next_layout: ImageLayout,
) -> (r: FrameStep)
    ensures
        r == color_barrier(image, previous_access, next_access, previous_layout, next_layout),
{
    FrameStep::Barrier(
        PlannedBarrier { image, previous_access, next_access, previous_layout, next_layout, aspect: AspectMask::Color },
    )
}

fn gbuffer_image(i: usize) -> (r: FrameImage)
    ensures
        r == gbuffer(i as int),
{
    if i == 0 {
        FrameImage::GbufNormal
    } else if i == 1 {
        FrameImage::GbufAlbedo
    } else if i == 2 {
        FrameImage::GbufRoughnessMetal
    } else {
        FrameImage::GbufMotion
    }
}

/// The ray-tracing pass's commands.
pub fn rt_pass_execute(extent: Extent2D) -> (r: Vec<FrameStep>)
    ensures
        r@ == rt_pass_steps(extent),
{
    let mut r: Vec<FrameStep> = Vec::new();
    r.push(
        color_barrier_step(
            FrameImage::RtOutput,
            AccessType::AnyShaderWrite,
            AccessType::AnyShaderWrite,
            ImageLayout::General,
            ImageLayout::General,
        ),
    );
    r.push(FrameStep::TraceRays { extent });
    r.push(
        color_barrier_step(
            FrameImage::RtOutput,
            AccessType::AnyShaderWrite,
            AccessType::TransferRead,
            ImageLayout::General,
            ImageLayout::TransferSrcOptimal,
        ),
    );
    r.push(
        color_barrier_step(
            FrameImage::Color,
            AccessType::ColorAttachmentWrite,
            AccessType::TransferWrite,
            ImageLayout::ColorAttachmentOptimal,
            ImageLayout::TransferDstOptimal,
        ),
    );
    r.push(FrameStep::CopyRtOutputToColor { extent });
    r.push(
        color_barrier_step(
            FrameImage::Color,
            AccessType::TransferWrite,
            AccessType::ColorAttachmentWrite,
            ImageLayout::TransferDstOptimal,
            ImageLayout::ColorAttachmentOptimal,
        ),
    );
    r.push(
        color_barrier_step(
            FrameImage::RtOutput,
            AccessType::TransferRead,
            AccessType::AnyShaderWrite,
            ImageLayout::TransferSrcOptimal,
            ImageLayout::General,
        ),
    );
    proof {
        assert(r@ =~= rt_pass_steps(extent));
    }
    r
}

/// The passes of a frame drawn at `extent` and the transitions between them.
pub fn run_passes(extent: Extent2D) -> (r: Vec<FrameStep>)
    ensures
        r@ == pass_steps(extent),
{
    let mut r: Vec<FrameStep> = Vec::new();
    r.push(FrameStep::SkyPass);
    r.push(FrameStep::GeometryPass { blend_mode: PbrBlendMode::Opaque });
    r.push(FrameStep::GeometryPass { blend_mode: PbrBlendMode::Masked });
    let mut i: usize = 0;
    while i < 4
        invariant
            i <= 4,
            r@.len() == 3 + i,
            r@.subrange(0, 3) == seq![
                FrameStep::SkyPass,
                FrameStep::GeometryPass { blend_mode: PbrBlendMode::Opaque },
                FrameStep::GeometryPass { blend_mode: PbrBlendMode::Masked },
            ],
            forall|k: int| 0 <= k < i ==> #[trigger] r@[3 + k] == gbuffer_reads()[k],
        decreases 4 - i,
    {
        let ghost before = r@;
        r.push(
            color_barrier_step(
                gbuffer_image(i),
                AccessType::ColorAttachmentWrite,
                AccessType::RayTracingShaderReadSampledImageOrUniformTexelBuffer,
                ImageLayout::ColorAttachmentOptimal,
                ImageLayout::ShaderReadOnlyOptimal,
            ),
        );
        proof {
            assert(r@.subrange(0, 3) =~= before.subrange(0, 3));
            assert(r@[3 + i as int] == gbuffer_reads()[i as int]);
        }
        i = i + 1;
    }
    r.push(
        FrameStep::Barrier(
            PlannedBarrier {
                image: FrameImage::Depth,
                previous_access: AccessType::DepthStencilAttachmentWrite,
                next_access: AccessType::RayTracingShaderReadSampledImageOrUniformTexelBuffer,
                previous_layout: ImageLayout::DepthAttachmentOptimal,
                next_layout: ImageLayout::DepthReadOnlyOptimal,
                aspect: AspectMask::Depth,
            },
        ),
    );
    let ghost before_rt = r@;
    append_steps(&mut r, rt_pass_execute(extent));
    proof {
        let head = seq![
            FrameStep::SkyPass,
            FrameStep::GeometryPass { blend_mode: PbrBlendMode::Opaque },
            FrameStep::GeometryPass { blend_mode: PbrBlendMode::Masked },
        ];
        assert forall|k: int| 0 <= k < before_rt.len() implies #[trigger] before_rt[k] == pass_steps(extent)[k] by {
            if k < 3 {
                assert(before_rt.subrange(0, 3)[k] == before_rt[k]);
                assert(head[k] == pass_steps(extent)[k]);
            } else if k < 7 {
                assert(before_rt[3 + (k - 3)] == gbuffer_reads()[k - 3]);
            }
        }
        assert(r@ =~= pass_steps(extent));
    }
    r
}

/// Appends `steps` to `r`.
fn append_steps(r: &mut Vec<FrameStep>, steps: Vec<FrameStep>)
    ensures
        final(r)@ == old(r)@ + steps@,
{
    let mut i: usize = 0;
    while i < steps.len()
        invariant
            i <= steps@.len(),
            r@ == old(r)@ + steps@.subrange(0, i as int),
        decreases steps@.len() - i,
    {
        r.push(steps[i]);
        i = i + 1;
        proof {
            assert(r@ =~= old(r)@ + steps@.subrange(0, i as int));
        }
    }
    proof {
        assert(steps@.subrange(0, steps@.len() as int) =~= steps@);
    }
}

/// The commands of one frame: the targets discarded into attachment layouts, the
/// scene's resources updated, the passes run, then the color target copied to the
/// swapchain image (the region both hold) and the swapchain image made presentable.
pub fn frame_steps(draw_extent: Extent2D, window_extent: Extent2D) -> (r: Vec<FrameStep>)
    ensures
        r@ == frame_steps_spec(draw_extent, window_extent),
{
    let mut r: Vec<FrameStep> = Vec::new();
    r.push(FrameStep::SetViewport { extent: draw_extent });
    r.push(FrameStep::SetScissor { extent: draw_extent });
    r.push(
        color_barrier_step(
            FrameImage::Color,
            AccessType::Nothing,
            AccessType::ColorAttachmentWrite,
            ImageLayout::Undefined,
            ImageLayout::ColorAttachmentOptimal,
        ),
    );
    r.push(
        FrameStep::Barrier(
            PlannedBarrier {
                image: FrameImage::Depth,
                previous_access: AccessType::Nothing,
                next_access: AccessType::DepthStencilAttachmentWrite,
                previous_layout: ImageLayout::Undefined,
                next_layout: ImageLayout::DepthAttachmentOptimal,
                aspect: AspectMask::Depth,
            },
        ),
    );
    let ghost head = r@;
    let mut clears: Vec<FrameStep> = Vec::new();
    let mut i: usize = 0;
    while i < 4
        invariant
            i <= 4,
            clears@.len() == i,
            forall|k: int| 0 <= k < i ==> #[trigger] clears@[k] == gbuffer_clears()[k],
        decreases 4 - i,
    {
        clears.push(
            color_barrier_step(
                gbuffer_image(i),
                AccessType::Nothing,
                AccessType::ColorAttachmentWrite,
                ImageLayout::Undefined,
                ImageLayout::ColorAttachmentOptimal,
            ),
        );
        i = i + 1;
    }
    proof {
        assert(clears@ =~= gbuffer_clears());
    }
    append_steps(&mut r, clears);
    r.push(FrameStep::UploadDrawItems);
    r.push(FrameStep::ResetIndirectDraws);
    r.push(FrameStep::BindIndexBuffer);
    r.push(FrameStep::UpdateTlas);
    append_steps(&mut r, run_passes(draw_extent));
    r.push(
        color_barrier_step(
            FrameImage::Color,
            AccessType::ColorAttachmentWrite,
            AccessType::TransferRead,
            ImageLayout::ColorAttachmentOptimal,
            ImageLayout::TransferSrcOptimal,
        ),
    );
    r.push(
        color_barrier_step(
            FrameImage::Swapchain,
            AccessType::Nothing,
            AccessType::TransferWrite,
            ImageLayout::Undefined,
            ImageLayout::TransferDstOptimal,
        ),
    );
    let region = Extent2D {
        width: if window_extent.width <= draw_extent.width { window_extent.width } else { draw_extent.width },
        height: if window_extent.height <= draw_extent.height { window_extent.height } else { draw_extent.height },
    };
    r.push(FrameStep::CopyToSwapchain { extent: region });
    r.push(
        color_barrier_step(
            FrameImage::Swapchain,
            AccessType::TransferWrite,
            AccessType::Present,
            ImageLayout::TransferDstOptimal,
            ImageLayout::PresentSrc,
        ),
    );
    proof {
        assert(r@ =~= frame_steps_spec(draw_extent, window_extent));
    }
    r
}

/// The commands of one frame of the forward-shaded viewer, drawn at `draw_extent` into
/// a swapchain image of `image_extent`.
pub open spec fn forward_frame_steps_spec(draw_extent: Extent2D, image_extent: Extent2D) -> Seq<FrameStep> {
    seq![
        color_barrier(
            FrameImage::Color,
            AccessType::Nothing,
            AccessType::ColorAttachmentWrite,
            ImageLayout::Undefined,
            ImageLayout::ColorAttachmentOptimal,
        ),
        FrameStep::Barrier(
            PlannedBarrier {
                image: FrameImage::Depth,
                previous_access: AccessType::Nothing,
                next_access: AccessType::DepthStencilAttachmentWrite,
                previous_layout: ImageLayout::Undefined,
                next_layout: ImageLayout::DepthAttachmentOptimal,
                aspect: AspectMask::Depth,
            },
        ),
        FrameStep::SetViewport { extent: draw_extent },
        FrameStep::SetScissor { extent: draw_extent },
        FrameStep::DrawObjects,
        color_barrier(
            FrameImage::Color,
            AccessType::ColorAttachmentWrite,
            AccessType::TransferRead,
            ImageLayout::ColorAttachmentOptimal,
            ImageLayout::TransferSrcOptimal,
        ),
        color_barrier(
            FrameImage::Swapchain,
            AccessType::Nothing,
            AccessType::TransferWrite,
            ImageLayout::Undefined,
            ImageLayout::TransferDstOptimal,
        ),
        FrameStep::CopyToSwapchain { extent: copy_region(draw_extent, image_extent) },
        color_barrier(
            FrameImage::Swapchain,
            AccessType::TransferWrite,
            AccessType::Present,
            ImageLayout::TransferDstOptimal,
            ImageLayout::PresentSrc,
        ),
    ]
}

/// The commands of one frame of the forward-shaded viewer: color and depth made
/// attachments, the objects drawn over the draw extent, the color target copied to the
/// swapchain image (the region both hold) and the swapchain image made presentable.
pub fn forward_frame_steps(draw_extent: Extent2D, image_extent: Extent2D) -> (r: Vec<FrameStep>)
    ensures
        r@ == forward_frame_steps_spec(draw_extent, image_extent),
{
    let mut r: Vec<FrameStep> = Vec::new();
    r.push(
        color_barrier_step(
            FrameImage::Color,
            AccessType::Nothing,
            AccessType::ColorAttachmentWrite,
            ImageLayout::Undefined,
            ImageLayout::ColorAttachmentOptimal,
        ),
    );
    r.push(
        FrameStep::Barrier(
            PlannedBarrier {
                image: FrameImage::Depth,
                previous_access: AccessType::Nothing,
                next_access: AccessType::DepthStencilAttachmentWrite,
                previous_layout: ImageLayout::Undefined,
                next_layout: ImageLayout::DepthAttachmentOptimal,
                aspect: AspectMask::Depth,
            },
        ),
    );
    r.push(FrameStep::SetViewport { extent: draw_extent });
    r.push(FrameStep::SetScissor { extent: draw_extent });
    r.push(FrameStep::DrawObjects);
    r.push(
        color_barrier_step(
            FrameImage::Color,
            AccessType::ColorAttachmentWrite,
            AccessType::TransferRead,
            ImageLayout::ColorAttachmentOptimal,
            ImageLayout::TransferSrcOptimal,
        ),
    );
    r.push(
        color_barrier_step(
            FrameImage::Swapchain,
            AccessType::Nothing,
            AccessType::TransferWrite,
            ImageLayout::Undefined,
            ImageLayout::TransferDstOptimal,
        ),
    );
    let region = Extent2D {
        width: if image_extent.width <= draw_extent.width { image_extent.width } else { draw_extent.width },
        height: if image_extent.height <= draw_extent.height { image_extent.height } else { draw_extent.height },
    };
    r.push(FrameStep::CopyToSwapchain { extent: region });
    r.push(
        color_barrier_step(
            FrameImage::Swapchain,
            AccessType::TransferWrite,
            AccessType::Present,
            ImageLayout::TransferDstOptimal,
            ImageLayout::PresentSrc,
        ),
    );
    proof {
        assert(r@ =~= forward_frame_steps_spec(draw_extent, image_extent));
    }
    r
}

/// The layout an image is in when a frame starts: the ray-tracing output stays in
/// the general layout from frame to frame; the other images start undefined (their
/// contents are not kept).
pub open spec fn initial_layout(image: FrameImage) -> ImageLayout {
    if image == FrameImage::RtOutput {
        ImageLayout::General
    } else {
        ImageLayout::Undefined
    }
}

/// The layout `image` is in before step `i`: what the last transition of it before
/// `i` left, or its layout at the start of the frame when there was none.
pub open spec fn layout_before(steps: Seq<FrameStep>, i: int, image: FrameImage) -> ImageLayout
    decreases i,
{
    if i <= 0 {
        initial_layout(image)
    } else {
        match steps[i - 1] {
            FrameStep::Barrier(b) => if b.image == image {
                b.next_layout
            } else {
                layout_before(steps, i - 1, image)
            },
            _ => layout_before(steps, i - 1, image),
        }
    }
}

/// Step `i` of `steps`, if it is a transition, starts from the layout its image is in
/// or discards the image.
pub open spec fn transition_chains(steps: Seq<FrameStep>, i: int) -> bool {
    match steps[i] {
        FrameStep::Barrier(b) => b.previous_layout == ImageLayout::Undefined || b.previous_layout
            == layout_before(steps, i, b.image),
        _ => true,
    }
}

/// Each transition starts from the layout the image is in, or discards it.
pub open spec fn transitions_chain(steps: Seq<FrameStep>) -> bool {
    forall|i: int| 0 <= i < steps.len() ==> #[trigger] transition_chains(steps, i)
}

/// The G-buffer images are all in `layout` before step `i`.
pub open spec fn gbuffer_in(steps: Seq<FrameStep>, i: int, layout: ImageLayout) -> bool {
    layout_before(steps, i, FrameImage::GbufNormal) == layout && layout_before(steps, i, FrameImage::GbufAlbedo)
        == layout && layout_before(steps, i, FrameImage::GbufRoughnessMetal) == layout && layout_before(
        steps,
        i,
        FrameImage::GbufMotion,
    ) == layout
}

/// Step `i`, if it is a pass or the copy, finds its images in the layouts it uses them
/// in: attachments for drawing, shader-readable G-buffer and depth for ray tracing,
/// transfer source and destination for the copy.
pub open spec fn step_sees_its_layouts(steps: Seq<FrameStep>, i: int) -> bool {
    match steps[i] {
        FrameStep::SkyPass => layout_before(steps, i, FrameImage::Color) == ImageLayout::ColorAttachmentOptimal
            && layout_before(steps, i, FrameImage::Depth) == ImageLayout::DepthAttachmentOptimal,
        FrameStep::DrawObjects => layout_before(steps, i, FrameImage::Color) == ImageLayout::ColorAttachmentOptimal
            && layout_before(steps, i, FrameImage::Depth) == ImageLayout::DepthAttachmentOptimal,
        FrameStep::GeometryPass { .. } => layout_before(steps, i, FrameImage::Depth)
            == ImageLayout::DepthAttachmentOptimal && gbuffer_in(steps, i, ImageLayout::ColorAttachmentOptimal),
        FrameStep::TraceRays { .. } => layout_before(steps, i, FrameImage::RtOutput) == ImageLayout::General
            && layout_before(steps, i, FrameImage::Depth) == ImageLayout::DepthReadOnlyOptimal && gbuffer_in(
            steps,
            i,
            ImageLayout::ShaderReadOnlyOptimal,
        ),
        FrameStep::CopyRtOutputToColor { .. } => layout_before(steps, i, FrameImage::RtOutput)
            == ImageLayout::TransferSrcOptimal && layout_before(steps, i, FrameImage::Color)
            == ImageLayout::TransferDstOptimal,
        FrameStep::CopyToSwapchain { .. } => layout_before(steps, i, FrameImage::Color)
            == ImageLayout::TransferSrcOptimal && layout_before(steps, i, FrameImage::Swapchain)
            == ImageLayout::TransferDstOptimal,
        _ => true,
    }
}

/// Every pass and copy finds its images in the layouts it uses, and the frame leaves
/// the swapchain image presentable and the ray-tracing output in the layout the next
/// frame expects.
pub open spec fn passes_see_their_layouts(steps: Seq<FrameStep>) -> bool {
    &&& forall|i: int| 0 <= i < steps.len() ==> #[trigger] step_sees_its_layouts(steps, i)
    &&& layout_before(steps, steps.len() as int, FrameImage::Swapchain) == ImageLayout::PresentSrc
    &&& layout_before(steps, steps.len() as int, FrameImage::RtOutput) == initial_layout(FrameImage::RtOutput)
}

/// The layouts of color, depth, the four G-buffer images, the swapchain image and
/// the ray-tracing output before step `i`.
pub open spec fn frame_layouts(steps: Seq<FrameStep>, i: int) -> (
    ImageLayout,
    ImageLayout,
    ImageLayout,
    ImageLayout,
    ImageLayout,
    ImageLayout,
    ImageLayout,
    ImageLayout,
) {
    (
        layout_before(steps, i, FrameImage::Color),
        layout_before(steps, i, FrameImage::Depth),
        layout_before(steps, i, FrameImage::GbufNormal),
        layout_before(steps, i, FrameImage::GbufAlbedo),
        layout_before(steps, i, FrameImage::GbufRoughnessMetal),
        layout_before(steps, i, FrameImage::GbufMotion),
        layout_before(steps, i, FrameImage::Swapchain),
        layout_before(steps, i, FrameImage::RtOutput),
    )
}

/// Every frame's layout transitions are consistent: each starts from the layout its
/// image is in (or discards the image), every pass and copy finds its images in the
/// layouts it uses, the swapchain image ends presentable, and the ray-tracing output
/// ends in the layout the next frame starts from.
#[verifier::rlimit(50)]
pub proof fn lemma_frame_layouts_consistent(draw_extent: Extent2D, window_extent: Extent2D)
    ensures
        transitions_chain(frame_steps_spec(draw_extent, window_extent)),
        passes_see_their_layouts(frame_steps_spec(draw_extent, window_extent)),
{
    let s = frame_steps_spec(draw_extent, window_extent);
    let (un, ca, da, sr, dr, ts, td, ps, ge) = (
        ImageLayout::Undefined,
        ImageLayout::ColorAttachmentOptimal,
        ImageLayout::DepthAttachmentOptimal,
        ImageLayout::ShaderReadOnlyOptimal,
        ImageLayout::DepthReadOnlyOptimal,
        ImageLayout::TransferSrcOptimal,
        ImageLayout::TransferDstOptimal,
        ImageLayout::PresentSrc,
        ImageLayout::General,
    );
    assert(s.len() == 31);
    assert(frame_layouts(s, 0) == (un, un, un, un, un, un, un, ge));
    assert(frame_layouts(s, 1) == (un, un, un, un, un, un, un, ge));
    assert(frame_layouts(s, 2) == (un, un, un, un, un, un, un, ge));
    assert(frame_layouts(s, 3) == (ca, un, un, un, un, un, un, ge));
    assert(frame_layouts(s, 4) == (ca, da, un, un, un, un, un, ge));
    assert(frame_layouts(s, 5) == (ca, da, ca, un, un, un, un, ge));
    assert(frame_layouts(s, 6) == (ca, da, ca, ca, un, un, un, ge));
    assert(frame_layouts(s, 7) == (ca, da, ca, ca, ca, un, un, ge));
    assert(frame_layouts(s, 8) == (ca, da, ca, ca, ca, ca, un, ge));
    assert(frame_layouts(s, 9) == (ca, da, ca, ca, ca, ca, un, ge));
    assert(frame_layouts(s, 10) == (ca, da, ca, ca, ca, ca, un, ge));
    assert(frame_layouts(s, 11) == (ca, da, ca, ca, ca, ca, un, ge));
    assert(frame_layouts(s, 12) == (ca, da, ca, ca, ca, ca, un, ge));
    assert(frame_layouts(s, 13) == (ca, da, ca, ca, ca, ca, un, ge));
    assert(frame_layouts(s, 14) == (ca, da, ca, ca, ca, ca, un, ge));
    assert(frame_layouts(s, 15) == (ca, da, ca, ca, ca, ca, un, ge));
    assert(frame_layouts(s, 16) == (ca, da, sr, ca, ca, ca, un, ge));
    assert(frame_layouts(s, 17) == (ca, da, sr, sr, ca, ca, un, ge));
    assert(frame_layouts(s, 18) == (ca, da, sr, sr, sr, ca, un, ge));
    assert(frame_layouts(s, 19) == (ca, da, sr, sr, sr, sr, un, ge));
    assert(frame_layouts(s, 20) == (ca, dr, sr, sr, sr, sr, un, ge));
    assert(frame_layouts(s, 21) == (ca, dr, sr, sr, sr, sr, un, ge));
    assert(frame_layouts(s, 22) == (ca, dr, sr, sr, sr, sr, un, ge));
    assert(frame_layouts(s, 23) == (ca, dr, sr, sr, sr, sr, un, ts));
    assert(frame_layouts(s, 24) == (td, dr, sr, sr, sr, sr, un, ts));
    assert(frame_layouts(s, 25) == (td, dr, sr, sr, sr, sr, un, ts));
    assert(frame_layouts(s, 26) == (ca, dr, sr, sr, sr, sr, un, ts));
    assert(frame_layouts(s, 27) == (ca, dr, sr, sr, sr, sr, un, ge));
    assert(frame_layouts(s, 28) == (ts, dr, sr, sr, sr, sr, un, ge));
    assert(frame_layouts(s, 29) == (ts, dr, sr, sr, sr, sr, td, ge));
    assert(frame_layouts(s, 30) == (ts, dr, sr, sr, sr, sr, td, ge));
    assert(frame_layouts(s, 31) == (ts, dr, sr, sr, sr, sr, ps, ge));
    assert forall|i: int| 0 <= i < s.len() implies #[trigger] transition_chains(s, i) && step_sees_its_layouts(s, i) by {
        assert(frame_layouts(s, i) == frame_layouts(s, i));
    }
}


/// The forward viewer's frame is consistent too: each transition starts from the
/// layout its image is in (or discards it), the objects are drawn into color and depth
/// attachments, the copy finds its source and destination in transfer layouts, and the
/// swapchain image ends presentable.
pub proof fn lemma_forward_frame_layouts_consistent(draw_extent: Extent2D, image_extent: Extent2D)
    ensures
        transitions_chain(forward_frame_steps_spec(draw_extent, image_extent)),
        passes_see_their_layouts(forward_frame_steps_spec(draw_extent, image_extent)),
{
    let s = forward_frame_steps_spec(draw_extent, image_extent);
    let (un, ca, da, ts, td, ps, ge) = (
        ImageLayout::Undefined,
        ImageLayout::ColorAttachmentOptimal,
        ImageLayout::DepthAttachmentOptimal,
        ImageLayout::TransferSrcOptimal,
        ImageLayout::TransferDstOptimal,
        ImageLayout::PresentSrc,
        ImageLayout::General,
    );
    assert(s.len() == 9);
    assert(frame_layouts(s, 0) == (un, un, un, un, un, un, un, ge));
    assert(frame_layouts(s, 1) == (ca, un, un, un, un, un, un, ge));
    assert(frame_layouts(s, 2) == (ca, da, un, un, un, un, un, ge));
    assert(frame_layouts(s, 3) == (ca, da, un, un, un, un, un, ge));
    assert(frame_layouts(s, 4) == (ca, da, un, un, un, un, un, ge));
    assert(frame_layouts(s, 5) == (ca, da, un, un, un, un, un, ge));
    assert(frame_layouts(s, 6) == (ts, da, un, un, un, un, un, ge));
    assert(frame_layouts(s, 7) == (ts, da, un, un, un, un, td, ge));
    assert(frame_layouts(s, 8) == (ts, da, un, un, un, un, td, ge));
    assert(frame_layouts(s, 9) == (ts, da, un, un, un, un, ps, ge));
    assert forall|i: int| 0 <= i < s.len() implies #[trigger] transition_chains(s, i) && step_sees_its_layouts(s, i) by {
        assert(frame_layouts(s, i) == frame_layouts(s, i));
    }
}

/// The images a step writes: the sky pass clears color and depth and draws the sky into
/// color; the geometry passes write depth and the four G-buffer images; ray tracing
/// writes its output; each copy writes its destination; the forward draw writes color
/// and depth. Barriers, state settings and resource updates write no frame image.
pub open spec fn step_writes(step: FrameStep, image: FrameImage) -> bool {
    match step {
        FrameStep::SkyPass => image == FrameImage::Color || image == FrameImage::Depth,
        FrameStep::GeometryPass { .. } => image == FrameImage::Depth || image == FrameImage::GbufNormal || image
            == FrameImage::GbufAlbedo || image == FrameImage::GbufRoughnessMetal || image == FrameImage::GbufMotion,
        FrameStep::TraceRays { .. } => image == FrameImage::RtOutput,
        FrameStep::CopyRtOutputToColor { .. } => image == FrameImage::Color,
        FrameStep::CopyToSwapchain { .. } => image == FrameImage::Swapchain,
        FrameStep::DrawObjects => image == FrameImage::Color || image == FrameImage::Depth,
        _ => false,
    }
}

/// Some step before `i` wrote `image` after the last transition of `image` before `i`.
pub open spec fn unbarriered_write(steps: Seq<FrameStep>, i: int, image: FrameImage) -> bool
    decreases i,
{
    if i <= 0 {
        false
    } else {
        match steps[i - 1] {
            FrameStep::Barrier(b) => if b.image == image {
                false
            } else {
                unbarriered_write(steps, i - 1, image)
            },
            other => step_writes(other, image) || unbarriered_write(steps, i - 1, image),
        }
    }
}

/// Step `i`, if it is a transition of an image that a step has written since its last
/// transition, names a write as its previous access, so that the write is made
/// available before the image is used again.
pub open spec fn barrier_keeps_writes(steps: Seq<FrameStep>, i: int) -> bool {
    match steps[i] {
        FrameStep::Barrier(b) => unbarriered_write(steps, i, b.image) ==> is_write(b.previous_access),
        _ => true,
    }
}

/// Every transition that follows a write of its image lists a write as previous access.
pub open spec fn writes_reach_barriers(steps: Seq<FrameStep>) -> bool {
    forall|i: int| 0 <= i < steps.len() ==> #[trigger] barrier_keeps_writes(steps, i)
}

/// Which of color, depth, the four G-buffer images, the swapchain image and the
/// ray-tracing output have been written since their last transition, before step `i`.
pub open spec fn pending_writes(steps: Seq<FrameStep>, i: int) -> (bool, bool, bool, bool, bool, bool, bool, bool) {
    (
        unbarriered_write(steps, i, FrameImage::Color),
        unbarriered_write(steps, i, FrameImage::Depth),
        unbarriered_write(steps, i, FrameImage::GbufNormal),
        unbarriered_write(steps, i, FrameImage::GbufAlbedo),
        unbarriered_write(steps, i, FrameImage::GbufRoughnessMetal),
        unbarriered_write(steps, i, FrameImage::GbufMotion),
        unbarriered_write(steps, i, FrameImage::Swapchain),
        unbarriered_write(steps, i, FrameImage::RtOutput),
    )
}

proof fn lemma_write_accesses()
    ensures
        is_write(AccessType::ColorAttachmentWrite),
        is_write(AccessType::DepthStencilAttachmentWrite),
        is_write(AccessType::TransferWrite),
        is_write(AccessType::AnyShaderWrite),
{
    crate::barriers::lemma_access_write_bits();
}

/// The world renderer's frame makes every write available: each transition of an
/// image written since its last transition (the G-buffer and depth after the geometry
/// passes, the ray-tracing output after the rays, color after the sky and after the
/// copy, the swapchain image after the copy) names that write as previous access.
#[verifier::rlimit(50)]
pub proof fn lemma_frame_writes_reach_barriers(draw_extent: Extent2D, window_extent: Extent2D)
    ensures
        writes_reach_barriers(frame_steps_spec(draw_extent, window_extent)),
{
    lemma_write_accesses();
    let s = frame_steps_spec(draw_extent, window_extent);
    assert(s.len() == 31);
    assert(pending_writes(s, 0) == (false, false, false, false, false, false, false, false));
    assert(pending_writes(s, 1) == (false, false, false, false, false, false, false, false));
    assert(pending_writes(s, 2) == (false, false, false, false, false, false, false, false));
    assert(pending_writes(s, 3) == (false, false, false, false, false, false, false, false));
    assert(pending_writes(s, 4) == (false, false, false, false, false, false, false, false));
    assert(pending_writes(s, 5) == (false, false, false, false, false, false, false, false));
    assert(pending_writes(s, 6) == (false, false, false, false, false, false, false, false));
    assert(pending_writes(s, 7) == (false, false, false, false, false, false, false, false));
    assert(pending_writes(s, 8) == (false, false, false, false, false, false, false, false));
    assert(pending_writes(s, 9) == (false, false, false, false, false, false, false, false));
    assert(pending_writes(s, 10) == (false, false, false, false, false, false, false, false));
    assert(pending_writes(s, 11) == (false, false, false, false, false, false, false, false));
    assert(pending_writes(s, 12) == (false, false, false, false, false, false, false, false));
    assert(pending_writes(s, 13) == (true, true, false, false, false, false, false, false));
    assert(pending_writes(s, 14) == (true, true, true, true, true, true, false, false));
    assert(pending_writes(s, 15) == (true, true, true, true, true, true, false, false));
    assert(pending_writes(s, 16) == (true, true, false, true, true, true, false, false));
    assert(pending_writes(s, 17) == (true, true, false, false, true, true, false, false));
    assert(pending_writes(s, 18) == (true, true, false, false, false, true, false, false));
    assert(pending_writes(s, 19) == (true, true, false, false, false, false, false, false));
    assert(pending_writes(s, 20) == (true, false, false, false, false, false, false, false));
    assert(pending_writes(s, 21) == (true, false, false, false, false, false, false, false));
    assert(pending_writes(s, 22) == (true, false, false, false, false, false, false, true));
    assert(pending_writes(s, 23) == (true, false, false, false, false, false, false, false));
    assert(pending_writes(s, 24) == (false, false, false, false, false, false, false, false));
    assert(pending_writes(s, 25) == (true, false, false, false, false, false, false, false));
    assert(pending_writes(s, 26) == (false, false, false, false, false, false, false, false));
    assert(pending_writes(s, 27) == (false, false, false, false, false, false, false, false));
    assert(pending_writes(s, 28) == (false, false, false, false, false, false, false, false));
    assert(pending_writes(s, 29) == (false, false, false, false, false, false, false, false));
    assert(pending_writes(s, 30) == (false, false, false, false, false, false, true, false));
    assert(pending_writes(s, 31) == (false, false, false, false, false, false, false, false));
    assert forall|i: int| 0 <= i < s.len() implies #[trigger] barrier_keeps_writes(s, i) by {
        assert(pending_writes(s, i) == pending_writes(s, i));
    }
}

/// The passes make their writes available: the G-buffer and depth transitions after
/// the geometry passes, and the ray-tracing pass's transitions, name the writes that
/// precede them.
#[verifier::rlimit(50)]
pub proof fn lemma_pass_writes_reach_barriers(extent: Extent2D)
    ensures
        writes_reach_barriers(pass_steps(extent)),
{
    lemma_write_accesses();
    let s = pass_steps(extent);
    assert(s.len() == 15);
    assert(pending_writes(s, 0) == (false, false, false, false, false, false, false, false));
    assert(pending_writes(s, 1) == (true, true, false, false, false, false, false, false));
    assert(pending_writes(s, 2) == (true, true, true, true, true, true, false, false));
    assert(pending_writes(s, 3) == (true, true, true, true, true, true, false, false));
    assert(pending_writes(s, 4) == (true, true, false, true, true, true, false, false));
    assert(pending_writes(s, 5) == (true, true, false, false, true, true, false, false));
    assert(pending_writes(s, 6) == (true, true, false, false, false, true, false, false));
    assert(pending_writes(s, 7) == (true, true, false, false, false, false, false, false));
    assert(pending_writes(s, 8) == (true, false, false, false, false, false, false, false));
    assert(pending_writes(s, 9) == (true, false, false, false, false, false, false, false));
    assert(pending_writes(s, 10) == (true, false, false, false, false, false, false, true));
    assert(pending_writes(s, 11) == (true, false, false, false, false, false, false, false));
    assert(pending_writes(s, 12) == (false, false, false, false, false, false, false, false));
    assert(pending_writes(s, 13) == (true, false, false, false, false, false, false, false));
    assert(pending_writes(s, 14) == (false, false, false, false, false, false, false, false));
    assert(pending_writes(s, 15) == (false, false, false, false, false, false, false, false));
    assert forall|i: int| 0 <= i < s.len() implies #[trigger] barrier_keeps_writes(s, i) by {
        assert(pending_writes(s, i) == pending_writes(s, i));
    }
}

/// The forward viewer's frame makes its writes available: the color transition after
/// the draw and the swapchain transition after the copy name those writes.
pub proof fn lemma_forward_frame_writes_reach_barriers(draw_extent: Extent2D, image_extent: Extent2D)
    ensures
        writes_reach_barriers(forward_frame_steps_spec(draw_extent, image_extent)),
{
    lemma_write_accesses();
    let s = forward_frame_steps_spec(draw_extent, image_extent);
    assert(s.len() == 9);
    assert(pending_writes(s, 0) == (false, false, false, false, false, false, false, false));
    assert(pending_writes(s, 1) == (false, false, false, false, false, false, false, false));
    assert(pending_writes(s, 2) == (false, false, false, false, false, false, false, false));
    assert(pending_writes(s, 3) == (false, false, false, false, false, false, false, false));
    assert(pending_writes(s, 4) == (false, false, false, false, false, false, false, false));
    assert(pending_writes(s, 5) == (true, true, false, false, false, false, false, false));
    assert(pending_writes(s, 6) == (false, true, false, false, false, false, false, false));
    assert(pending_writes(s, 7) == (false, true, false, false, false, false, false, false));
    assert(pending_writes(s, 8) == (false, true, false, false, false, false, true, false));
    assert(pending_writes(s, 9) == (false, true, false, false, false, false, false, false));
    assert forall|i: int| 0 <= i < s.len() implies #[trigger] barrier_keeps_writes(s, i) by {
        assert(pending_writes(s, i) == pending_writes(s, i));
    }
}

/// How a step uses an image, if it does: the sky pass and the forward draw write color
/// and depth as attachments; the geometry passes write depth and the G-buffer as
/// attachments; ray tracing samples depth and the G-buffer and writes its output from
/// shaders; each copy reads its source and writes its destination by transfer.
pub open spec fn step_access(step: FrameStep, image: FrameImage) -> Option<AccessType> {
    match step {
        FrameStep::SkyPass | FrameStep::DrawObjects => if image == FrameImage::Color {
            Some(AccessType::ColorAttachmentWrite)
        } else if image == FrameImage::Depth {
            Some(AccessType::DepthStencilAttachmentWrite)
        } else {
            None
        },
        FrameStep::GeometryPass { .. } => if image == FrameImage::Depth {
            Some(AccessType::DepthStencilAttachmentWrite)
        } else if image == FrameImage::GbufNormal || image == FrameImage::GbufAlbedo || image
            == FrameImage::GbufRoughnessMetal || image == FrameImage::GbufMotion {
            Some(AccessType::ColorAttachmentWrite)
        } else {
            None
        },
        FrameStep::TraceRays { .. } => if image == FrameImage::RtOutput {
            Some(AccessType::AnyShaderWrite)
        } else if image == FrameImage::Depth || image == FrameImage::GbufNormal || image == FrameImage::GbufAlbedo
            || image == FrameImage::GbufRoughnessMetal || image == FrameImage::GbufMotion {
            Some(AccessType::RayTracingShaderReadSampledImageOrUniformTexelBuffer)
        } else {
            None
        },
        FrameStep::CopyRtOutputToColor { .. } => if image == FrameImage::RtOutput {
            Some(AccessType::TransferRead)
        } else if image == FrameImage::Color {
            Some(AccessType::TransferWrite)
        } else {
            None
        },
        FrameStep::CopyToSwapchain { .. } => if image == FrameImage::Color {
            Some(AccessType::TransferRead)
        } else if image == FrameImage::Swapchain {
            Some(AccessType::TransferWrite)
        } else {
            None
        },
        _ => None,
    }
}

/// The last use of `image` before step `i` since its last transition, if any.
pub open spec fn last_use(steps: Seq<FrameStep>, i: int, image: FrameImage) -> Option<AccessType>
    decreases i,
{
    if i <= 0 {
        None
    } else {
        match steps[i - 1] {
            FrameStep::Barrier(b) => if b.image == image {
                None
            } else {
                last_use(steps, i - 1, image)
            },
            other => match step_access(other, image) {
                Some(a) => Some(a),
                None => last_use(steps, i - 1, image),
            },
        }
    }
}

/// The first use of `image` from step `i` on before its next transition, if any.
pub open spec fn next_use(steps: Seq<FrameStep>, i: int, image: FrameImage) -> Option<AccessType>
    decreases steps.len() - i,
{
    if i < 0 || i >= steps.len() {
        None
    } else {
        match steps[i] {
            FrameStep::Barrier(b) => if b.image == image {
                None
            } else {
                next_use(steps, i + 1, image)
            },
            other => match step_access(other, image) {
                Some(a) => Some(a),
                None => next_use(steps, i + 1, image),
            },
        }
    }
}

/// Step `i`, if it is a transition, names as previous access the use of its image
/// that precedes it and as next access the use that follows it.
pub open spec fn barrier_matches_uses(steps: Seq<FrameStep>, i: int) -> bool {
    match steps[i] {
        FrameStep::Barrier(b) => (last_use(steps, i, b.image) matches Some(a) ==> b.previous_access == a) && (
        next_use(steps, i + 1, b.image) matches Some(a) ==> b.next_access == a),
        _ => true,
    }
}

/// Every transition sits between the uses it names.
pub open spec fn barriers_match_uses(steps: Seq<FrameStep>) -> bool {
    forall|i: int| 0 <= i < steps.len() ==> #[trigger] barrier_matches_uses(steps, i)
}

/// The last uses of the eight frame images before step `i`.
pub open spec fn last_uses(steps: Seq<FrameStep>, i: int) -> (
    Option<AccessType>,
    Option<AccessType>,
    Option<AccessType>,
    Option<AccessType>,
    Option<AccessType>,
    Option<AccessType>,
    Option<AccessType>,
    Option<AccessType>,
) {
    (
        last_use(steps, i, FrameImage::Color),
        last_use(steps, i, FrameImage::Depth),
        last_use(steps, i, FrameImage::GbufNormal),
        last_use(steps, i, FrameImage::GbufAlbedo),
        last_use(steps, i, FrameImage::GbufRoughnessMetal),
        last_use(steps, i, FrameImage::GbufMotion),
        last_use(steps, i, FrameImage::Swapchain),
        last_use(steps, i, FrameImage::RtOutput),
    )
}

/// The next uses of the eight frame images from step `i` on.
pub open spec fn next_uses(steps: Seq<FrameStep>, i: int) -> (
    Option<AccessType>,
    Option<AccessType>,
    Option<AccessType>,
    Option<AccessType>,
    Option<AccessType>,
    Option<AccessType>,
    Option<AccessType>,
    Option<AccessType>,
) {
    (
        next_use(steps, i, FrameImage::Color),
        next_use(steps, i, FrameImage::Depth),
        next_use(steps, i, FrameImage::GbufNormal),
        next_use(steps, i, FrameImage::GbufAlbedo),
        next_use(steps, i, FrameImage::GbufRoughnessMetal),
        next_use(steps, i, FrameImage::GbufMotion),
        next_use(steps, i, FrameImage::Swapchain),
        next_use(steps, i, FrameImage::RtOutput),
    )
}

/// In the world renderer's frame each transition names the accesses around it: what
/// the preceding pass or copy did to the image, and what the following one does.
#[verifier::rlimit(100)]
pub proof fn lemma_frame_barriers_match_uses(draw_extent: Extent2D, window_extent: Extent2D)
    ensures
        barriers_match_uses(frame_steps_spec(draw_extent, window_extent)),
{
    let s = frame_steps_spec(draw_extent, window_extent);
    assert(s.len() == 31);
    assert(last_uses(s, 0) == (None::<AccessType>, None::<AccessType>, None::<AccessType>, None::<AccessType>, None::<AccessType>, None::<AccessType>, None::<AccessType>, None::<AccessType>));
    assert(last_uses(s, 1) == (None::<AccessType>, None::<AccessType>, None::<AccessType>, None::<AccessType>, None::<AccessType>, None::<AccessType>, None::<AccessType>, None::<AccessType>));
    assert(last_uses(s, 2) == (None::<AccessType>, None::<AccessType>, None::<AccessType>, None::<AccessType>, None::<AccessType>, None::<AccessType>, None::<AccessType>, None::<AccessType>));
    assert(last_uses(s, 3) == (None::<AccessType>, None::<AccessType>, None::<AccessType>, None::<AccessType>, None::<AccessType>, None::<AccessType>, None::<AccessType>, None::<AccessType>));
    assert(last_uses(s, 4) == (None::<AccessType>, None::<AccessType>, None::<AccessType>, None::<AccessType>, None::<AccessType>, None::<AccessType>, None::<AccessType>, None::<AccessType>));
    assert(last_uses(s, 5) == (None::<AccessType>, None::<AccessType>, None::<AccessType>, None::<AccessType>, None::<AccessType>, None::<AccessType>, None::<AccessType>, None::<AccessType>));
    assert(last_uses(s, 6) == (None::<AccessType>, None::<AccessType>, None::<AccessType>, None::<AccessType>, None::<AccessType>, None::<AccessType>, None::<AccessType>, None::<AccessType>));
    assert(last_uses(s, 7) == (None::<AccessType>, None::<AccessType>, None::<AccessType>, None::<AccessType>, None::<AccessType>, None::<AccessType>, None::<AccessType>, None::<AccessType>));
    assert(last_uses(s, 8) == (None::<AccessType>, None::<AccessType>, None::<AccessType>, None::<AccessType>, None::<AccessType>, None::<AccessType>, None::<AccessType>, None::<AccessType>));
    assert(last_uses(s, 9) == (None::<AccessType>, None::<AccessType>, None::<AccessType>, None::<AccessType>, None::<AccessType>, None::<AccessType>, None::<AccessType>, None::<AccessType>));
    assert(last_uses(s, 10) == (None::<AccessType>, None::<AccessType>, None::<AccessType>, None::<AccessType>, None::<AccessType>, None::<AccessType>, None::<AccessType>, None::<AccessType>));
    assert(last_uses(s, 11) == (None::<AccessType>, None::<AccessType>, None::<AccessType>, None::<AccessType>, None::<AccessType>, None::<AccessType>, None::<AccessType>, None::<AccessType>));
    assert(last_uses(s, 12) == (None::<AccessType>, None::<AccessType>, None::<AccessType>, None::<AccessType>, None::<AccessType>, None::<AccessType>, None::<AccessType>, None::<AccessType>));
    assert(last_uses(s, 13) == (Some(AccessType::ColorAttachmentWrite), Some(AccessType::DepthStencilAttachmentWrite), None::<AccessType>, None::<AccessType>, None::<AccessType>, None::<AccessType>, None::<AccessType>, None::<AccessType>));
    assert(last_uses(s, 14) == (Some(AccessType::ColorAttachmentWrite), Some(AccessType::DepthStencilAttachmentWrite), Some(AccessType::ColorAttachmentWrite), Some(AccessType::ColorAttachmentWrite), Some(AccessType::ColorAttachmentWrite), Some(AccessType::ColorAttachmentWrite), None::<AccessType>, None::<AccessType>));
    assert(last_uses(s, 15) == (Some(AccessType::ColorAttachmentWrite), Some(AccessType::DepthStencilAttachmentWrite), Some(AccessType::ColorAttachmentWrite), Some(AccessType::ColorAttachmentWrite), Some(AccessType::ColorAttachmentWrite), Some(AccessType::ColorAttachmentWrite), None::<AccessType>, None::<AccessType>));
    assert(last_uses(s, 16) == (Some(AccessType::ColorAttachmentWrite), Some(AccessType::DepthStencilAttachmentWrite), None::<AccessType>, Some(AccessType::ColorAttachmentWrite), Some(AccessType::ColorAttachmentWrite), Some(AccessType::ColorAttachmentWrite), None::<AccessType>, None::<AccessType>));
    assert(last_uses(s, 17) == (Some(AccessType::ColorAttachmentWrite), Some(AccessType::DepthStencilAttachmentWrite), None::<AccessType>, None::<AccessType>, Some(AccessType::ColorAttachmentWrite), Some(AccessType::ColorAttachmentWrite), None::<AccessType>, None::<AccessType>));
    assert(last_uses(s, 18) == (Some(AccessType::ColorAttachmentWrite), Some(AccessType::DepthStencilAttachmentWrite), None::<AccessType>, None::<AccessType>, None::<AccessType>, Some(AccessType::ColorAttachmentWrite), None::<AccessType>, None::<AccessType>));
    assert(last_uses(s, 19) == (Some(AccessType::ColorAttachmentWrite), Some(AccessType::DepthStencilAttachmentWrite), None::<AccessType>, None::<AccessType>, None::<AccessType>, None::<AccessType>, None::<AccessType>, None::<AccessType>));
    assert(last_uses(s, 20) == (Some(AccessType::ColorAttachmentWrite), None::<AccessType>, None::<AccessType>, None::<AccessType>, None::<AccessType>, None::<AccessType>, None::<AccessType>, None::<AccessType>));
    assert(last_uses(s, 21) == (Some(AccessType::ColorAttachmentWrite), None::<AccessType>, None::<AccessType>, None::<AccessType>, None::<AccessType>, None::<AccessType>, None::<AccessType>, None::<AccessType>));
    assert(last_uses(s, 22) == (Some(AccessType::ColorAttachmentWrite), Some(AccessType::RayTracingShaderReadSampledImageOrUniformTexelBuffer), Some(AccessType::RayTracingShaderReadSampledImageOrUniformTexelBuffer), Some(AccessType::RayTracingShaderReadSampledImageOrUniformTexelBuffer), Some(AccessType::RayTracingShaderReadSampledImageOrUniformTexelBuffer), Some(AccessType::RayTracingShaderReadSampledImageOrUniformTexelBuffer), None::<AccessType>, Some(AccessType::AnyShaderWrite)));
    assert(last_uses(s, 23) == (Some(AccessType::ColorAttachmentWrite), Some(AccessType::RayTracingShaderReadSampledImageOrUniformTexelBuffer), Some(AccessType::RayTracingShaderReadSampledImageOrUniformTexelBuffer), Some(AccessType::RayTracingShaderReadSampledImageOrUniformTexelBuffer), Some(AccessType::RayTracingShaderReadSampledImageOrUniformTexelBuffer), Some(AccessType::RayTracingShaderReadSampledImageOrUniformTexelBuffer), None::<AccessType>, None::<AccessType>));
    assert(last_uses(s, 24) == (None::<AccessType>, Some(AccessType::RayTracingShaderReadSampledImageOrUniformTexelBuffer), Some(AccessType::RayTracingShaderReadSampledImageOrUniformTexelBuffer), Some(AccessType::RayTracingShaderReadSampledImageOrUniformTexelBuffer), Some(AccessType::RayTracingShaderReadSampledImageOrUniformTexelBuffer), Some(AccessType::RayTracingShaderReadSampledImageOrUniformTexelBuffer), None::<AccessType>, None::<AccessType>));
    assert(last_uses(s, 25) == (Some(AccessType::TransferWrite), Some(AccessType::RayTracingShaderReadSampledImageOrUniformTexelBuffer), Some(AccessType::RayTracingShaderReadSampledImageOrUniformTexelBuffer), Some(AccessType::RayTracingShaderReadSampledImageOrUniformTexelBuffer), Some(AccessType::RayTracingShaderReadSampledImageOrUniformTexelBuffer), Some(AccessType::RayTracingShaderReadSampledImageOrUniformTexelBuffer), None::<AccessType>, Some(AccessType::TransferRead)));
    assert(last_uses(s, 26) == (None::<AccessType>, Some(AccessType::RayTracingShaderReadSampledImageOrUniformTexelBuffer), Some(AccessType::RayTracingShaderReadSampledImageOrUniformTexelBuffer), Some(AccessType::RayTracingShaderReadSampledImageOrUniformTexelBuffer), Some(AccessType::RayTracingShaderReadSampledImageOrUniformTexelBuffer), Some(AccessType::RayTracingShaderReadSampledImageOrUniformTexelBuffer), None::<AccessType>, Some(AccessType::TransferRead)));
    assert(last_uses(s, 27) == (None::<AccessType>, Some(AccessType::RayTracingShaderReadSampledImageOrUniformTexelBuffer), Some(AccessType::RayTracingShaderReadSampledImageOrUniformTexelBuffer), Some(AccessType::RayTracingShaderReadSampledImageOrUniformTexelBuffer), Some(AccessType::RayTracingShaderReadSampledImageOrUniformTexelBuffer), Some(AccessType::RayTracingShaderReadSampledImageOrUniformTexelBuffer), None::<AccessType>, None::<AccessType>));
    assert(last_uses(s, 28) == (None::<AccessType>, Some(AccessType::RayTracingShaderReadSampledImageOrUniformTexelBuffer), Some(AccessType::RayTracingShaderReadSampledImageOrUniformTexelBuffer), Some(AccessType::RayTracingShaderReadSampledImageOrUniformTexelBuffer), Some(AccessType::RayTracingShaderReadSampledImageOrUniformTexelBuffer), Some(AccessType::RayTracingShaderReadSampledImageOrUniformTexelBuffer), None::<AccessType>, None::<AccessType>));
    assert(last_uses(s, 29) == (None::<AccessType>, Some(AccessType::RayTracingShaderReadSampledImageOrUniformTexelBuffer), Some(AccessType::RayTracingShaderReadSampledImageOrUniformTexelBuffer), Some(AccessType::RayTracingShaderReadSampledImageOrUniformTexelBuffer), Some(AccessType::RayTracingShaderReadSampledImageOrUniformTexelBuffer), Some(AccessType::RayTracingShaderReadSampledImageOrUniformTexelBuffer), None::<AccessType>, None::<AccessType>));
    assert(last_uses(s, 30) == (Some(AccessType::TransferRead), Some(AccessType::RayTracingShaderReadSampledImageOrUniformTexelBuffer), Some(AccessType::RayTracingShaderReadSampledImageOrUniformTexelBuffer), Some(AccessType::RayTracingShaderReadSampledImageOrUniformTexelBuffer), Some(AccessType::RayTracingShaderReadSampledImageOrUniformTexelBuffer), Some(AccessType::RayTracingShaderReadSampledImageOrUniformTexelBuffer), Some(AccessType::TransferWrite), None::<AccessType>));
    assert(last_uses(s, 31) == (Some(AccessType::TransferRead), Some(AccessType::RayTracingShaderReadSampledImageOrUniformTexelBuffer), Some(AccessType::RayTracingShaderReadSampledImageOrUniformTexelBuffer), Some(AccessType::RayTracingShaderReadSampledImageOrUniformTexelBuffer), Some(AccessType::RayTracingShaderReadSampledImageOrUniformTexelBuffer), Some(AccessType::RayTracingShaderReadSampledImageOrUniformTexelBuffer), None::<AccessType>, None::<AccessType>));
    assert(next_uses(s, 31) == (None::<AccessType>, None::<AccessType>, None::<AccessType>, None::<AccessType>, None::<AccessType>, None::<AccessType>, None::<AccessType>, None::<AccessType>));
    assert(next_uses(s, 30) == (None::<AccessType>, None::<AccessType>, None::<AccessType>, None::<AccessType>, None::<AccessType>, None::<AccessType>, None::<AccessType>, None::<AccessType>));
    assert(next_uses(s, 29) == (Some(AccessType::TransferRead), None::<AccessType>, None::<AccessType>, None::<AccessType>, None::<AccessType>, None::<AccessType>, Some(AccessType::TransferWrite), None::<AccessType>));
    assert(next_uses(s, 28) == (Some(AccessType::TransferRead), None::<AccessType>, None::<AccessType>, None::<AccessType>, None::<AccessType>, None::<AccessType>, None::<AccessType>, None::<AccessType>));
    assert(next_uses(s, 27) == (None::<AccessType>, None::<AccessType>, None::<AccessType>, None::<AccessType>, None::<AccessType>, None::<AccessType>, None::<AccessType>, None::<AccessType>));
    assert(next_uses(s, 26) == (None::<AccessType>, None::<AccessType>, None::<AccessType>, None::<AccessType>, None::<AccessType>, None::<AccessType>, None::<AccessType>, None::<AccessType>));
    assert(next_uses(s, 25) == (None::<AccessType>, None::<AccessType>, None::<AccessType>, None::<AccessType>, None::<AccessType>, None::<AccessType>, None::<AccessType>, None::<AccessType>));
    assert(next_uses(s, 24) == (Some(AccessType::TransferWrite), None::<AccessType>, None::<AccessType>, None::<AccessType>, None::<AccessType>, None::<AccessType>, None::<AccessType>, Some(AccessType::TransferRead)));
    assert(next_uses(s, 23) == (None::<AccessType>, None::<AccessType>, None::<AccessType>, None::<AccessType>, None::<AccessType>, None::<AccessType>, None::<AccessType>, Some(AccessType::TransferRead)));
    assert(next_uses(s, 22) == (None::<AccessType>, None::<AccessType>, None::<AccessType>, None::<AccessType>, None::<AccessType>, None::<AccessType>, None::<AccessType>, None::<AccessType>));
    assert(next_uses(s, 21) == (None::<AccessType>, Some(AccessType::RayTracingShaderReadSampledImageOrUniformTexelBuffer), Some(AccessType::RayTracingShaderReadSampledImageOrUniformTexelBuffer), Some(AccessType::RayTracingShaderReadSampledImageOrUniformTexelBuffer), Some(AccessType::RayTracingShaderReadSampledImageOrUniformTexelBuffer), Some(AccessType::RayTracingShaderReadSampledImageOrUniformTexelBuffer), None::<AccessType>, Some(AccessType::AnyShaderWrite)));
    assert(next_uses(s, 20) == (None::<AccessType>, Some(AccessType::RayTracingShaderReadSampledImageOrUniformTexelBuffer), Some(AccessType::RayTracingShaderReadSampledImageOrUniformTexelBuffer), Some(AccessType::RayTracingShaderReadSampledImageOrUniformTexelBuffer), Some(AccessType::RayTracingShaderReadSampledImageOrUniformTexelBuffer), Some(AccessType::RayTracingShaderReadSampledImageOrUniformTexelBuffer), None::<AccessType>, None::<AccessType>));
    assert(next_uses(s, 19) == (None::<AccessType>, None::<AccessType>, Some(AccessType::RayTracingShaderReadSampledImageOrUniformTexelBuffer), Some(AccessType::RayTracingShaderReadSampledImageOrUniformTexelBuffer), Some(AccessType::RayTracingShaderReadSampledImageOrUniformTexelBuffer), Some(AccessType::RayTracingShaderReadSampledImageOrUniformTexelBuffer), None::<AccessType>, None::<AccessType>));
    assert(next_uses(s, 18) == (None::<AccessType>, None::<AccessType>, Some(AccessType::RayTracingShaderReadSampledImageOrUniformTexelBuffer), Some(AccessType::RayTracingShaderReadSampledImageOrUniformTexelBuffer), Some(AccessType::RayTracingShaderReadSampledImageOrUniformTexelBuffer), None::<AccessType>, None::<AccessType>, None::<AccessType>));
    assert(next_uses(s, 17) == (None::<AccessType>, None::<AccessType>, Some(AccessType::RayTracingShaderReadSampledImageOrUniformTexelBuffer), Some(AccessType::RayTracingShaderReadSampledImageOrUniformTexelBuffer), None::<AccessType>, None::<AccessType>, None::<AccessType>, None::<AccessType>));
    assert(next_uses(s, 16) == (None::<AccessType>, None::<AccessType>, Some(AccessType::RayTracingShaderReadSampledImageOrUniformTexelBuffer), None::<AccessType>, None::<AccessType>, None::<AccessType>, None::<AccessType>, None::<AccessType>));
    assert(next_uses(s, 15) == (None::<AccessType>, None::<AccessType>, None::<AccessType>, None::<AccessType>, None::<AccessType>, None::<AccessType>, None::<AccessType>, None::<AccessType>));
    assert(next_uses(s, 14) == (None::<AccessType>, Some(AccessType::DepthStencilAttachmentWrite), Some(AccessType::ColorAttachmentWrite), Some(AccessType::ColorAttachmentWrite), Some(AccessType::ColorAttachmentWrite), Some(AccessType::ColorAttachmentWrite), None::<AccessType>, None::<AccessType>));
    assert(next_uses(s, 13) == (None::<AccessType>, Some(AccessType::DepthStencilAttachmentWrite), Some(AccessType::ColorAttachmentWrite), Some(AccessType::ColorAttachmentWrite), Some(AccessType::ColorAttachmentWrite), Some(AccessType::ColorAttachmentWrite), None::<AccessType>, None::<AccessType>));
    assert(next_uses(s, 12) == (Some(AccessType::ColorAttachmentWrite), Some(AccessType::DepthStencilAttachmentWrite), Some(AccessType::ColorAttachmentWrite), Some(AccessType::ColorAttachmentWrite), Some(AccessType::ColorAttachmentWrite), Some(AccessType::ColorAttachmentWrite), None::<AccessType>, None::<AccessType>));
    assert(next_uses(s, 11) == (Some(AccessType::ColorAttachmentWrite), Some(AccessType::DepthStencilAttachmentWrite), Some(AccessType::ColorAttachmentWrite), Some(AccessType::ColorAttachmentWrite), Some(AccessType::ColorAttachmentWrite), Some(AccessType::ColorAttachmentWrite), None::<AccessType>, None::<AccessType>));
    assert(next_uses(s, 10) == (Some(AccessType::ColorAttachmentWrite), Some(AccessType::DepthStencilAttachmentWrite), Some(AccessType::ColorAttachmentWrite), Some(AccessType::ColorAttachmentWrite), Some(AccessType::ColorAttachmentWrite), Some(AccessType::ColorAttachmentWrite), None::<AccessType>, None::<AccessType>));
    assert(next_uses(s, 9) == (Some(AccessType::ColorAttachmentWrite), Some(AccessType::DepthStencilAttachmentWrite), Some(AccessType::ColorAttachmentWrite), Some(AccessType::ColorAttachmentWrite), Some(AccessType::ColorAttachmentWrite), Some(AccessType::ColorAttachmentWrite), None::<AccessType>, None::<AccessType>));
    assert(next_uses(s, 8) == (Some(AccessType::ColorAttachmentWrite), Some(AccessType::DepthStencilAttachmentWrite), Some(AccessType::ColorAttachmentWrite), Some(AccessType::ColorAttachmentWrite), Some(AccessType::ColorAttachmentWrite), Some(AccessType::ColorAttachmentWrite), None::<AccessType>, None::<AccessType>));
    assert(next_uses(s, 7) == (Some(AccessType::ColorAttachmentWrite), Some(AccessType::DepthStencilAttachmentWrite), Some(AccessType::ColorAttachmentWrite), Some(AccessType::ColorAttachmentWrite), Some(AccessType::ColorAttachmentWrite), None::<AccessType>, None::<AccessType>, None::<AccessType>));
    assert(next_uses(s, 6) == (Some(AccessType::ColorAttachmentWrite), Some(AccessType::DepthStencilAttachmentWrite), Some(AccessType::ColorAttachmentWrite), Some(AccessType::ColorAttachmentWrite), None::<AccessType>, None::<AccessType>, None::<AccessType>, None::<AccessType>));
    assert(next_uses(s, 5) == (Some(AccessType::ColorAttachmentWrite), Some(AccessType::DepthStencilAttachmentWrite), Some(AccessType::ColorAttachmentWrite), None::<AccessType>, None::<AccessType>, None::<AccessType>, None::<AccessType>, None::<AccessType>));
    assert(next_uses(s, 4) == (Some(AccessType::ColorAttachmentWrite), Some(AccessType::DepthStencilAttachmentWrite), None::<AccessType>, None::<AccessType>, None::<AccessType>, None::<AccessType>, None::<AccessType>, None::<AccessType>));
    assert(next_uses(s, 3) == (Some(AccessType::ColorAttachmentWrite), None::<AccessType>, None::<AccessType>, None::<AccessType>, None::<AccessType>, None::<AccessType>, None::<AccessType>, None::<AccessType>));
    assert(next_uses(s, 2) == (None::<AccessType>, None::<AccessType>, None::<AccessType>, None::<AccessType>, None::<AccessType>, None::<AccessType>, None::<AccessType>, None::<AccessType>));
    assert(next_uses(s, 1) == (None::<AccessType>, None::<AccessType>, None::<AccessType>, None::<AccessType>, None::<AccessType>, None::<AccessType>, None::<AccessType>, None::<AccessType>));
    assert(next_uses(s, 0) == (None::<AccessType>, None::<AccessType>, None::<AccessType>, None::<AccessType>, None::<AccessType>, None::<AccessType>, None::<AccessType>, None::<AccessType>));
    assert forall|i: int| 0 <= i < s.len() implies #[trigger] barrier_matches_uses(s, i) by {
        assert(last_uses(s, i) == last_uses(s, i));
        assert(next_uses(s, i + 1) == next_uses(s, i + 1));
    }
}

/// Between the passes each transition names the accesses around it.
#[verifier::rlimit(100)]
pub proof fn lemma_pass_barriers_match_uses(extent: Extent2D)
    ensures
        barriers_match_uses(pass_steps(extent)),
{
    let s = pass_steps(extent);
    assert(s.len() == 15);
    assert(last_uses(s, 0) == (None::<AccessType>, None::<AccessType>, None::<AccessType>, None::<AccessType>, None::<AccessType>, None::<AccessType>, None::<AccessType>, None::<AccessType>));
    assert(last_uses(s, 1) == (Some(AccessType::ColorAttachmentWrite), Some(AccessType::DepthStencilAttachmentWrite), None::<AccessType>, None::<AccessType>, None::<AccessType>, None::<AccessType>, None::<AccessType>, None::<AccessType>));
    assert(last_uses(s, 2) == (Some(AccessType::ColorAttachmentWrite), Some(AccessType::DepthStencilAttachmentWrite), Some(AccessType::ColorAttachmentWrite), Some(AccessType::ColorAttachmentWrite), Some(AccessType::ColorAttachmentWrite), Some(AccessType::ColorAttachmentWrite), None::<AccessType>, None::<AccessType>));
    assert(last_uses(s, 3) == (Some(AccessType::ColorAttachmentWrite), Some(AccessType::DepthStencilAttachmentWrite), Some(AccessType::ColorAttachmentWrite), Some(AccessType::ColorAttachmentWrite), Some(AccessType::ColorAttachmentWrite), Some(AccessType::ColorAttachmentWrite), None::<AccessType>, None::<AccessType>));
    assert(last_uses(s, 4) == (Some(AccessType::ColorAttachmentWrite), Some(AccessType::DepthStencilAttachmentWrite), None::<AccessType>, Some(AccessType::ColorAttachmentWrite), Some(AccessType::ColorAttachmentWrite), Some(AccessType::ColorAttachmentWrite), None::<AccessType>, None::<AccessType>));
    assert(last_uses(s, 5) == (Some(AccessType::ColorAttachmentWrite), Some(AccessType::DepthStencilAttachmentWrite), None::<AccessType>, None::<AccessType>, Some(AccessType::ColorAttachmentWrite), Some(AccessType::ColorAttachmentWrite), None::<AccessType>, None::<AccessType>));
    assert(last_uses(s, 6) == (Some(AccessType::ColorAttachmentWrite), Some(AccessType::DepthStencilAttachmentWrite), None::<AccessType>, None::<AccessType>, None::<AccessType>, Some(AccessType::ColorAttachmentWrite), None::<AccessType>, None::<AccessType>));
    assert(last_uses(s, 7) == (Some(AccessType::ColorAttachmentWrite), Some(AccessType::DepthStencilAttachmentWrite), None::<AccessType>, None::<AccessType>, None::<AccessType>, None::<AccessType>, None::<AccessType>, None::<AccessType>));
    assert(last_uses(s, 8) == (Some(AccessType::ColorAttachmentWrite), None::<AccessType>, None::<AccessType>, None::<AccessType>, None::<AccessType>, None::<AccessType>, None::<AccessType>, None::<AccessType>));
    assert(last_uses(s, 9) == (Some(AccessType::ColorAttachmentWrite), None::<AccessType>, None::<AccessType>, None::<AccessType>, None::<AccessType>, None::<AccessType>, None::<AccessType>, None::<AccessType>));
    assert(last_uses(s, 10) == (Some(AccessType::ColorAttachmentWrite), Some(AccessType::RayTracingShaderReadSampledImageOrUniformTexelBuffer), Some(AccessType::RayTracingShaderReadSampledImageOrUniformTexelBuffer), Some(AccessType::RayTracingShaderReadSampledImageOrUniformTexelBuffer), Some(AccessType::RayTracingShaderReadSampledImageOrUniformTexelBuffer), Some(AccessType::RayTracingShaderReadSampledImageOrUniformTexelBuffer), None::<AccessType>, Some(AccessType::AnyShaderWrite)));
    assert(last_uses(s, 11) == (Some(AccessType::ColorAttachmentWrite), Some(AccessType::RayTracingShaderReadSampledImageOrUniformTexelBuffer), Some(AccessType::RayTracingShaderReadSampledImageOrUniformTexelBuffer), Some(AccessType::RayTracingShaderReadSampledImageOrUniformTexelBuffer), Some(AccessType::RayTracingShaderReadSampledImageOrUniformTexelBuffer), Some(AccessType::RayTracingShaderReadSampledImageOrUniformTexelBuffer), None::<AccessType>, None::<AccessType>));
    assert(last_uses(s, 12) == (None::<AccessType>, Some(AccessType::RayTracingShaderReadSampledImageOrUniformTexelBuffer), Some(AccessType::RayTracingShaderReadSampledImageOrUniformTexelBuffer), Some(AccessType::RayTracingShaderReadSampledImageOrUniformTexelBuffer), Some(AccessType::RayTracingShaderReadSampledImageOrUniformTexelBuffer), Some(AccessType::RayTracingShaderReadSampledImageOrUniformTexelBuffer), None::<AccessType>, None::<AccessType>));
    assert(last_uses(s, 13) == (Some(AccessType::TransferWrite), Some(AccessType::RayTracingShaderReadSampledImageOrUniformTexelBuffer), Some(AccessType::RayTracingShaderReadSampledImageOrUniformTexelBuffer), Some(AccessType::RayTracingShaderReadSampledImageOrUniformTexelBuffer), Some(AccessType::RayTracingShaderReadSampledImageOrUniformTexelBuffer), Some(AccessType::RayTracingShaderReadSampledImageOrUniformTexelBuffer), None::<AccessType>, Some(AccessType::TransferRead)));
    assert(last_uses(s, 14) == (None::<AccessType>, Some(AccessType::RayTracingShaderReadSampledImageOrUniformTexelBuffer), Some(AccessType::RayTracingShaderReadSampledImageOrUniformTexelBuffer), Some(AccessType::RayTracingShaderReadSampledImageOrUniformTexelBuffer), Some(AccessType::RayTracingShaderReadSampledImageOrUniformTexelBuffer), Some(AccessType::RayTracingShaderReadSampledImageOrUniformTexelBuffer), None::<AccessType>, Some(AccessType::TransferRead)));
    assert(last_uses(s, 15) == (None::<AccessType>, Some(AccessType::RayTracingShaderReadSampledImageOrUniformTexelBuffer), Some(AccessType::RayTracingShaderReadSampledImageOrUniformTexelBuffer), Some(AccessType::RayTracingShaderReadSampledImageOrUniformTexelBuffer), Some(AccessType::RayTracingShaderReadSampledImageOrUniformTexelBuffer), Some(AccessType::RayTracingShaderReadSampledImageOrUniformTexelBuffer), None::<AccessType>, None::<AccessType>));
    assert(next_uses(s, 15) == (None::<AccessType>, None::<AccessType>, None::<AccessType>, None::<AccessType>, None::<AccessType>, None::<AccessType>, None::<AccessType>, None::<AccessType>));
    assert(next_uses(s, 14) == (None::<AccessType>, None::<AccessType>, None::<AccessType>, None::<AccessType>, None::<AccessType>, None::<AccessType>, None::<AccessType>, None::<AccessType>));
    assert(next_uses(s, 13) == (None::<AccessType>, None::<AccessType>, None::<AccessType>, None::<AccessType>, None::<AccessType>, None::<AccessType>, None::<AccessType>, None::<AccessType>));
    assert(next_uses(s, 12) == (Some(AccessType::TransferWrite), None::<AccessType>, None::<AccessType>, None::<AccessType>, None::<AccessType>, None::<AccessType>, None::<AccessType>, Some(AccessType::TransferRead)));
    assert(next_uses(s, 11) == (None::<AccessType>, None::<AccessType>, None::<AccessType>, None::<AccessType>, None::<AccessType>, None::<AccessType>, None::<AccessType>, Some(AccessType::TransferRead)));
    assert(next_uses(s, 10) == (None::<AccessType>, None::<AccessType>, None::<AccessType>, None::<AccessType>, None::<AccessType>, None::<AccessType>, None::<AccessType>, None::<AccessType>));
    assert(next_uses(s, 9) == (None::<AccessType>, Some(AccessType::RayTracingShaderReadSampledImageOrUniformTexelBuffer), Some(AccessType::RayTracingShaderReadSampledImageOrUniformTexelBuffer), Some(AccessType::RayTracingShaderReadSampledImageOrUniformTexelBuffer), Some(AccessType::RayTracingShaderReadSampledImageOrUniformTexelBuffer), Some(AccessType::RayTracingShaderReadSampledImageOrUniformTexelBuffer), None::<AccessType>, Some(AccessType::AnyShaderWrite)));
    assert(next_uses(s, 8) == (None::<AccessType>, Some(AccessType::RayTracingShaderReadSampledImageOrUniformTexelBuffer), Some(AccessType::RayTracingShaderReadSampledImageOrUniformTexelBuffer), Some(AccessType::RayTracingShaderReadSampledImageOrUniformTexelBuffer), Some(AccessType::RayTracingShaderReadSampledImageOrUniformTexelBuffer), Some(AccessType::RayTracingShaderReadSampledImageOrUniformTexelBuffer), None::<AccessType>, None::<AccessType>));
    assert(next_uses(s, 7) == (None::<AccessType>, None::<AccessType>, Some(AccessType::RayTracingShaderReadSampledImageOrUniformTexelBuffer), Some(AccessType::RayTracingShaderReadSampledImageOrUniformTexelBuffer), Some(AccessType::RayTracingShaderReadSampledImageOrUniformTexelBuffer), Some(AccessType::RayTracingShaderReadSampledImageOrUniformTexelBuffer), None::<AccessType>, None::<AccessType>));
    assert(next_uses(s, 6) == (None::<AccessType>, None::<AccessType>, Some(AccessType::RayTracingShaderReadSampledImageOrUniformTexelBuffer), Some(AccessType::RayTracingShaderReadSampledImageOrUniformTexelBuffer), Some(AccessType::RayTracingShaderReadSampledImageOrUniformTexelBuffer), None::<AccessType>, None::<AccessType>, None::<AccessType>));
    assert(next_uses(s, 5) == (None::<AccessType>, None::<AccessType>, Some(AccessType::RayTracingShaderReadSampledImageOrUniformTexelBuffer), Some(AccessType::RayTracingShaderReadSampledImageOrUniformTexelBuffer), None::<AccessType>, None::<AccessType>, None::<AccessType>, None::<AccessType>));
    assert(next_uses(s, 4) == (None::<AccessType>, None::<AccessType>, Some(AccessType::RayTracingShaderReadSampledImageOrUniformTexelBuffer), None::<AccessType>, None::<AccessType>, None::<AccessType>, None::<AccessType>, None::<AccessType>));
    assert(next_uses(s, 3) == (None::<AccessType>, None::<AccessType>, None::<AccessType>, None::<AccessType>, None::<AccessType>, None::<AccessType>, None::<AccessType>, None::<AccessType>));
    assert(next_uses(s, 2) == (None::<AccessType>, Some(AccessType::DepthStencilAttachmentWrite), Some(AccessType::ColorAttachmentWrite), Some(AccessType::ColorAttachmentWrite), Some(AccessType::ColorAttachmentWrite), Some(AccessType::ColorAttachmentWrite), None::<AccessType>, None::<AccessType>));
    assert(next_uses(s, 1) == (None::<AccessType>, Some(AccessType::DepthStencilAttachmentWrite), Some(AccessType::ColorAttachmentWrite), Some(AccessType::ColorAttachmentWrite), Some(AccessType::ColorAttachmentWrite), Some(AccessType::ColorAttachmentWrite), None::<AccessType>, None::<AccessType>));
    assert(next_uses(s, 0) == (Some(AccessType::ColorAttachmentWrite), Some(AccessType::DepthStencilAttachmentWrite), Some(AccessType::ColorAttachmentWrite), Some(AccessType::ColorAttachmentWrite), Some(AccessType::ColorAttachmentWrite), Some(AccessType::ColorAttachmentWrite), None::<AccessType>, None::<AccessType>));
    assert forall|i: int| 0 <= i < s.len() implies #[trigger] barrier_matches_uses(s, i) by {
        assert(last_uses(s, i) == last_uses(s, i));
        assert(next_uses(s, i + 1) == next_uses(s, i + 1));
    }
}

/// In the forward viewer's frame each transition names the accesses around it.
pub proof fn lemma_forward_frame_barriers_match_uses(draw_extent: Extent2D, image_extent: Extent2D)
    ensures
        barriers_match_uses(forward_frame_steps_spec(draw_extent, image_extent)),
{
    let s = forward_frame_steps_spec(draw_extent, image_extent);
    assert(s.len() == 9);
    assert(last_uses(s, 0) == (None::<AccessType>, None::<AccessType>, None::<AccessType>, None::<AccessType>, None::<AccessType>, None::<AccessType>, None::<AccessType>, None::<AccessType>));
    assert(last_uses(s, 1) == (None::<AccessType>, None::<AccessType>, None::<AccessType>, None::<AccessType>, None::<AccessType>, None::<AccessType>, None::<AccessType>, None::<AccessType>));
    assert(last_uses(s, 2) == (None::<AccessType>, None::<AccessType>, None::<AccessType>, None::<AccessType>, None::<AccessType>, None::<AccessType>, None::<AccessType>, None::<AccessType>));
    assert(last_uses(s, 3) == (None::<AccessType>, None::<AccessType>, None::<AccessType>, None::<AccessType>, None::<AccessType>, None::<AccessType>, None::<AccessType>, None::<AccessType>));
    assert(last_uses(s, 4) == (None::<AccessType>, None::<AccessType>, None::<AccessType>, None::<AccessType>, None::<AccessType>, None::<AccessType>, None::<AccessType>, None::<AccessType>));
    assert(last_uses(s, 5) == (Some(AccessType::ColorAttachmentWrite), Some(AccessType::DepthStencilAttachmentWrite), None::<AccessType>, None::<AccessType>, None::<AccessType>, None::<AccessType>, None::<AccessType>, None::<AccessType>));
    assert(last_uses(s, 6) == (None::<AccessType>, Some(AccessType::DepthStencilAttachmentWrite), None::<AccessType>, None::<AccessType>, None::<AccessType>, None::<AccessType>, None::<AccessType>, None::<AccessType>));
    assert(last_uses(s, 7) == (None::<AccessType>, Some(AccessType::DepthStencilAttachmentWrite), None::<AccessType>, None::<AccessType>, None::<AccessType>, None::<AccessType>, None::<AccessType>, None::<AccessType>));
    assert(last_uses(s, 8) == (Some(AccessType::TransferRead), Some(AccessType::DepthStencilAttachmentWrite), None::<AccessType>, None::<AccessType>, None::<AccessType>, None::<AccessType>, Some(AccessType::TransferWrite), None::<AccessType>));
    assert(last_uses(s, 9) == (Some(AccessType::TransferRead), Some(AccessType::DepthStencilAttachmentWrite), None::<AccessType>, None::<AccessType>, None::<AccessType>, None::<AccessType>, None::<AccessType>, None::<AccessType>));
    assert(next_uses(s, 9) == (None::<AccessType>, None::<AccessType>, None::<AccessType>, None::<AccessType>, None::<AccessType>, None::<AccessType>, None::<AccessType>, None::<AccessType>));
    assert(next_uses(s, 8) == (None::<AccessType>, None::<AccessType>, None::<AccessType>, None::<AccessType>, None::<AccessType>, None::<AccessType>, None::<AccessType>, None::<AccessType>));
    assert(next_uses(s, 7) == (Some(AccessType::TransferRead), None::<AccessType>, None::<AccessType>, None::<AccessType>, None::<AccessType>, None::<AccessType>, Some(AccessType::TransferWrite), None::<AccessType>));
    assert(next_uses(s, 6) == (Some(AccessType::TransferRead), None::<AccessType>, None::<AccessType>, None::<AccessType>, None::<AccessType>, None::<AccessType>, None::<AccessType>, None::<AccessType>));
    assert(next_uses(s, 5) == (None::<AccessType>, None::<AccessType>, None::<AccessType>, None::<AccessType>, None::<AccessType>, None::<AccessType>, None::<AccessType>, None::<AccessType>));
    assert(next_uses(s, 4) == (Some(AccessType::ColorAttachmentWrite), Some(AccessType::DepthStencilAttachmentWrite), None::<AccessType>, None::<AccessType>, None::<AccessType>, None::<AccessType>, None::<AccessType>, None::<AccessType>));
    assert(next_uses(s, 3) == (Some(AccessType::ColorAttachmentWrite), Some(AccessType::DepthStencilAttachmentWrite), None::<AccessType>, None::<AccessType>, None::<AccessType>, None::<AccessType>, None::<AccessType>, None::<AccessType>));
    assert(next_uses(s, 2) == (Some(AccessType::ColorAttachmentWrite), Some(AccessType::DepthStencilAttachmentWrite), None::<AccessType>, None::<AccessType>, None::<AccessType>, None::<AccessType>, None::<AccessType>, None::<AccessType>));
    assert(next_uses(s, 1) == (Some(AccessType::ColorAttachmentWrite), None::<AccessType>, None::<AccessType>, None::<AccessType>, None::<AccessType>, None::<AccessType>, None::<AccessType>, None::<AccessType>));
    assert(next_uses(s, 0) == (None::<AccessType>, None::<AccessType>, None::<AccessType>, None::<AccessType>, None::<AccessType>, None::<AccessType>, None::<AccessType>, None::<AccessType>));
    assert forall|i: int| 0 <= i < s.len() implies #[trigger] barrier_matches_uses(s, i) by {
        assert(last_uses(s, i) == last_uses(s, i));
        assert(next_uses(s, i + 1) == next_uses(s, i + 1));
    }
}

} // verus!

verus! {

pub const FORMAT_R8G8_UNORM: i32 = 16;
pub const FORMAT_R8G8B8A8_UNORM: i32 = 37;
pub const FORMAT_B8G8R8A8_UNORM: i32 = 44;
pub const FORMAT_R16G16_SFLOAT: i32 = 83;
pub const FORMAT_R16G16B16A16_SFLOAT: i32 = 97;
pub const FORMAT_D32_SFLOAT: i32 = 126;

pub const IMAGE_USAGE_TRANSFER_SRC: u32 = 0x1;
pub const IMAGE_USAGE_TRANSFER_DST: u32 = 0x2;
pub const IMAGE_USAGE_SAMPLED: u32 = 0x4;
pub const IMAGE_USAGE_STORAGE: u32 = 0x8;
pub const IMAGE_USAGE_COLOR_ATTACHMENT: u32 = 0x10;
pub const IMAGE_USAGE_DEPTH_STENCIL_ATTACHMENT: u32 = 0x20;

/// How one render target of the world renderer is created: a 2D image of the draw
/// extent with one mip level, replicated per frame in flight.
#[derive(Debug, Clone, Copy, PartialEq, Eq, Structural)]
pub struct RenderTargetDesc {
    pub image: FrameImage,
    pub format: i32,
    pub usage: u32,
    pub aspect: AspectMask,
    pub extent: Extent2D,
}

/// The format, usage and aspect of each render target.
pub open spec fn target_desc(image: FrameImage, extent: Extent2D) -> RenderTargetDesc {
    match image {
        FrameImage::Depth => RenderTargetDesc {
            image,
            format: FORMAT_D32_SFLOAT,
            usage: IMAGE_USAGE_DEPTH_STENCIL_ATTACHMENT | IMAGE_USAGE_SAMPLED,
            aspect: AspectMask::Depth,
            extent,
        },
        FrameImage::GbufNormal => RenderTargetDesc {
            image,
            format: FORMAT_R16G16B16A16_SFLOAT,
            usage: IMAGE_USAGE_COLOR_ATTACHMENT | IMAGE_USAGE_SAMPLED,
            aspect: AspectMask::Color,
            extent,
        },
        FrameImage::GbufAlbedo => RenderTargetDesc {
            image,
            format: FORMAT_R8G8B8A8_UNORM,
            usage: IMAGE_USAGE_COLOR_ATTACHMENT | IMAGE_USAGE_SAMPLED,
            aspect: AspectMask::Color,
            extent,
        },
        FrameImage::GbufRoughnessMetal => RenderTargetDesc {
            image,
            format: FORMAT_R8G8_UNORM,
            usage: IMAGE_USAGE_COLOR_ATTACHMENT | IMAGE_USAGE_SAMPLED,
            aspect: AspectMask::Color,
            extent,
        },
        FrameImage::GbufMotion => RenderTargetDesc {
            image,
            format: FORMAT_R16G16_SFLOAT,
            usage: IMAGE_USAGE_COLOR_ATTACHMENT | IMAGE_USAGE_SAMPLED,
            aspect: AspectMask::Color,
            extent,
        },
        _ => RenderTargetDesc {
            image: FrameImage::Color,
            format: FORMAT_B8G8R8A8_UNORM,
            usage: IMAGE_USAGE_COLOR_ATTACHMENT | IMAGE_USAGE_TRANSFER_SRC | IMAGE_USAGE_TRANSFER_DST
                | IMAGE_USAGE_SAMPLED | IMAGE_USAGE_STORAGE,
            aspect: AspectMask::Color,
            extent,
        },
    }
}

/// Each render target is created at the draw extent in the format its contents need:
/// color in BGRA8 (the swapchain's format, copied to it), depth in 32-bit float, normals
/// in RGBA16 float (signed components, kept precise), albedo in RGBA8, roughness and
/// metalness in RG8, motion vectors in RG16 float (signed); the G-buffer images are
/// drawn to and sampled, depth is a depth attachment that ray tracing samples.
pub proof fn lemma_render_target_formats(extent: Extent2D)
    ensures
        target_desc(FrameImage::Color, extent).format == FORMAT_B8G8R8A8_UNORM,
        target_desc(FrameImage::Depth, extent).format == FORMAT_D32_SFLOAT,
        target_desc(FrameImage::GbufNormal, extent).format == FORMAT_R16G16B16A16_SFLOAT,
        target_desc(FrameImage::GbufAlbedo, extent).format == FORMAT_R8G8B8A8_UNORM,
        target_desc(FrameImage::GbufRoughnessMetal, extent).format == FORMAT_R8G8_UNORM,
        target_desc(FrameImage::GbufMotion, extent).format == FORMAT_R16G16_SFLOAT,
        target_desc(FrameImage::Depth, extent).aspect == AspectMask::Depth,
        target_desc(FrameImage::Color, extent).usage == IMAGE_USAGE_COLOR_ATTACHMENT | IMAGE_USAGE_TRANSFER_SRC
            | IMAGE_USAGE_TRANSFER_DST | IMAGE_USAGE_SAMPLED | IMAGE_USAGE_STORAGE,
        target_desc(FrameImage::Depth, extent).usage == IMAGE_USAGE_DEPTH_STENCIL_ATTACHMENT | IMAGE_USAGE_SAMPLED,
        forall|image: FrameImage|
            image != FrameImage::Depth && image != FrameImage::Swapchain && image != FrameImage::RtOutput
                ==> #[trigger] target_desc(image, extent).aspect == AspectMask::Color,
        forall|image: FrameImage|
            #![trigger target_desc(image, extent)]
            image == FrameImage::GbufNormal || image == FrameImage::GbufAlbedo || image
                == FrameImage::GbufRoughnessMetal || image == FrameImage::GbufMotion ==> target_desc(image, extent).usage
                == IMAGE_USAGE_COLOR_ATTACHMENT | IMAGE_USAGE_SAMPLED,
        forall|image: FrameImage|
            #![trigger target_desc(image, extent)]
            image != FrameImage::Swapchain && image != FrameImage::RtOutput ==> target_desc(image, extent).image
                == image && target_desc(image, extent).extent == extent,
{
}

/// The render targets in the order they are created: color (BGRA8, also copied
/// from, written by compute and ray tracing), depth (D32), then the G-buffer: normals
/// (RGBA16F), albedo (RGBA8), roughness and metalness (RG8), motion (RG16F).
pub fn render_targets(draw_extent: Extent2D) -> (r: Vec<RenderTargetDesc>)
    ensures
        r@ == seq![
            target_desc(FrameImage::Color, draw_extent),
            target_desc(FrameImage::Depth, draw_extent),
            target_desc(FrameImage::GbufNormal, draw_extent),
            target_desc(FrameImage::GbufAlbedo, draw_extent),
            target_desc(FrameImage::GbufRoughnessMetal, draw_extent),
            target_desc(FrameImage::GbufMotion, draw_extent),
        ],
{
    let gbuffer_usage = IMAGE_USAGE_COLOR_ATTACHMENT | IMAGE_USAGE_SAMPLED;
    let mut r: Vec<RenderTargetDesc> = Vec::new();
    r.push(RenderTargetDesc {
        image: FrameImage::Color,
        format: FORMAT_B8G8R8A8_UNORM,
        usage: IMAGE_USAGE_COLOR_ATTACHMENT | IMAGE_USAGE_TRANSFER_SRC | IMAGE_USAGE_TRANSFER_DST
            | IMAGE_USAGE_SAMPLED | IMAGE_USAGE_STORAGE,
        aspect: AspectMask::Color,
        extent: draw_extent,
    });
    r.push(RenderTargetDesc {
        image: FrameImage::Depth,
        format: FORMAT_D32_SFLOAT,
        usage: IMAGE_USAGE_DEPTH_STENCIL_ATTACHMENT | IMAGE_USAGE_SAMPLED,
        aspect: AspectMask::Depth,
        extent: draw_extent,
    });
    r.push(RenderTargetDesc {
        image: FrameImage::GbufNormal,
        format: FORMAT_R16G16B16A16_SFLOAT,
        usage: gbuffer_usage,
        aspect: AspectMask::Color,
        extent: draw_extent,
    });
    r.push(RenderTargetDesc {
        image: FrameImage::GbufAlbedo,
        format: FORMAT_R8G8B8A8_UNORM,
        usage: gbuffer_usage,
        aspect: AspectMask::Color,
        extent: draw_extent,
    });
    r.push(RenderTargetDesc {
        image: FrameImage::GbufRoughnessMetal,
        format: FORMAT_R8G8_UNORM,
        usage: gbuffer_usage,
        aspect: AspectMask::Color,
        extent: draw_extent,
    });
    r.push(RenderTargetDesc {
        image: FrameImage::GbufMotion,
        format: FORMAT_R16G16_SFLOAT,
        usage: gbuffer_usage,
        aspect: AspectMask::Color,
        extent: draw_extent,
    });
    proof {
        assert(r@ =~= seq![
            target_desc(FrameImage::Color, draw_extent),
            target_desc(FrameImage::Depth, draw_extent),
            target_desc(FrameImage::GbufNormal, draw_extent),
            target_desc(FrameImage::GbufAlbedo, draw_extent),
            target_desc(FrameImage::GbufRoughnessMetal, draw_extent),
            target_desc(FrameImage::GbufMotion, draw_extent),
        ]);
    }
    r
}

/// The size in bytes of a frame read back as 8-bit RGBA.
pub open spec fn readback_size(width: u32, height: u32) -> int {
    width * height * 4
}

/// The frame's BGRA8 pixels read back from the color target, as RGBA8: red and blue
/// of every pixel swapped, green and alpha kept.
pub fn bgra_to_rgba(pixels: &[u8], width: u32, height: u32) -> (rgba: Vec<u8>)
    requires
        readback_size(width, height) <= u32::MAX,
        pixels@.len() == readback_size(width, height),
    ensures
        rgba@.len() == pixels@.len(),
        forall|i: int| 0 <= i < width * height ==> {
            &&& #[trigger] rgba@[4 * i] == pixels@[4 * i + 2]
            &&& rgba@[4 * i + 1] == pixels@[4 * i + 1]
            &&& rgba@[4 * i + 2] == pixels@[4 * i]
            &&& rgba@[4 * i + 3] == pixels@[4 * i + 3]
        },
{
    assert(width * height <= u32::MAX) by (nonlinear_arith)
        requires
            width * height * 4 <= u32::MAX,
    ;
    let count: usize = (width as usize) * (height as usize);
    let mut rgba: Vec<u8> = Vec::new();
    let mut i: usize = 0;
    while i < count
        invariant
            i <= count,
            count == width * height,
            4 * count <= u32::MAX,
            pixels@.len() == 4 * count,
            rgba@.len() == 4 * i,
            forall|k: int| 0 <= k < i ==> {
                &&& #[trigger] rgba@[4 * k] == pixels@[4 * k + 2]
                &&& rgba@[4 * k + 1] == pixels@[4 * k + 1]
                &&& rgba@[4 * k + 2] == pixels@[4 * k]
                &&& rgba@[4 * k + 3] == pixels@[4 * k + 3]
            },
        decreases count - i,
    {
        let base = 4 * i;
        let ghost before = rgba@;
        rgba.push(pixels[base + 2]);
        rgba.push(pixels[base + 1]);
        rgba.push(pixels[base]);
        rgba.push(pixels[base + 3]);
        proof {
            assert forall|k: int| 0 <= k < i + 1 implies {
                &&& #[trigger] rgba@[4 * k] == pixels@[4 * k + 2]
                &&& rgba@[4 * k + 1] == pixels@[4 * k + 1]
                &&& rgba@[4 * k + 2] == pixels@[4 * k]
                &&& rgba@[4 * k + 3] == pixels@[4 * k + 3]
            } by {
                if k < i {
                    assert(before[4 * k] == pixels@[4 * k + 2]);
                }
            }
        }
        i = i + 1;
    }
    rgba
}

/// Swapping red and blue twice gives the pixels back.
pub proof fn lemma_bgra_swap_involution(pixels: Seq<u8>, once: Seq<u8>, twice: Seq<u8>, count: int)
    requires
        pixels.len() == 4 * count,
        once.len() == pixels.len(),
        twice.len() == once.len(),
        forall|i: int| 0 <= i < count ==> {
            &&& #[trigger] once[4 * i] == pixels[4 * i + 2]
            &&& once[4 * i + 1] == pixels[4 * i + 1]
            &&& once[4 * i + 2] == pixels[4 * i]
            &&& once[4 * i + 3] == pixels[4 * i + 3]
        },
        forall|i: int| 0 <= i < count ==> {
            &&& #[trigger] twice[4 * i] == once[4 * i + 2]
            &&& twice[4 * i + 1] == once[4 * i + 1]
            &&& twice[4 * i + 2] == once[4 * i]
            &&& twice[4 * i + 3] == once[4 * i + 3]
        },
    ensures
        twice == pixels,
{
    assert forall|j: int| 0 <= j < pixels.len() implies twice[j] == pixels[j] by {
        let i = j / 4;
        assert(0 <= i < count);
        assert(j == 4 * i + j % 4);
        assert(once[4 * i] == pixels[4 * i + 2]);
        assert(twice[4 * i] == once[4 * i + 2]);
    }
    assert(twice =~= pixels);
}

} // verus!
