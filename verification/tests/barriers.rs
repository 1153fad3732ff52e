use ash::vk;
use lantir::barriers::{
    convert_aspect_mask, convert_layout, get_access_info, get_image_memory_barrier, is_write_access,
    make_subresource_range, AccessType, AspectMask, ImageBarrier, ImageLayout,
};
use lantir::vk_flags;

#[test]
fn stage_constants_match_vulkan() {
    assert_eq!(vk_flags::STAGE_TOP_OF_PIPE, vk::PipelineStageFlags::TOP_OF_PIPE.as_raw());
    assert_eq!(vk_flags::STAGE_DRAW_INDIRECT, vk::PipelineStageFlags::DRAW_INDIRECT.as_raw());
    assert_eq!(vk_flags::STAGE_VERTEX_INPUT, vk::PipelineStageFlags::VERTEX_INPUT.as_raw());
    assert_eq!(vk_flags::STAGE_VERTEX_SHADER, vk::PipelineStageFlags::VERTEX_SHADER.as_raw());
    assert_eq!(
        vk_flags::STAGE_TESSELLATION_CONTROL_SHADER,
        vk::PipelineStageFlags::TESSELLATION_CONTROL_SHADER.as_raw()
    );
    assert_eq!(
        vk_flags::STAGE_TESSELLATION_EVALUATION_SHADER,
        vk::PipelineStageFlags::TESSELLATION_EVALUATION_SHADER.as_raw()
    );
    assert_eq!(vk_flags::STAGE_GEOMETRY_SHADER, vk::PipelineStageFlags::GEOMETRY_SHADER.as_raw());
    assert_eq!(vk_flags::STAGE_FRAGMENT_SHADER, vk::PipelineStageFlags::FRAGMENT_SHADER.as_raw());
    assert_eq!(vk_flags::STAGE_EARLY_FRAGMENT_TESTS, vk::PipelineStageFlags::EARLY_FRAGMENT_TESTS.as_raw());
    assert_eq!(vk_flags::STAGE_LATE_FRAGMENT_TESTS, vk::PipelineStageFlags::LATE_FRAGMENT_TESTS.as_raw());
    assert_eq!(
        vk_flags::STAGE_COLOR_ATTACHMENT_OUTPUT,
        vk::PipelineStageFlags::COLOR_ATTACHMENT_OUTPUT.as_raw()
    );
    assert_eq!(vk_flags::STAGE_COMPUTE_SHADER, vk::PipelineStageFlags::COMPUTE_SHADER.as_raw());
    assert_eq!(vk_flags::STAGE_TRANSFER, vk::PipelineStageFlags::TRANSFER.as_raw());
    assert_eq!(vk_flags::STAGE_BOTTOM_OF_PIPE, vk::PipelineStageFlags::BOTTOM_OF_PIPE.as_raw());
    assert_eq!(vk_flags::STAGE_HOST, vk::PipelineStageFlags::HOST.as_raw());
    assert_eq!(vk_flags::STAGE_ALL_GRAPHICS, vk::PipelineStageFlags::ALL_GRAPHICS.as_raw());
    assert_eq!(vk_flags::STAGE_ALL_COMMANDS, vk::PipelineStageFlags::ALL_COMMANDS.as_raw());
    assert_eq!(vk_flags::STAGE_COMMAND_PREPROCESS_NV, vk::PipelineStageFlags::COMMAND_PREPROCESS_NV.as_raw());
    assert_eq!(vk_flags::STAGE_RAY_TRACING_SHADER_KHR, vk::PipelineStageFlags::RAY_TRACING_SHADER_KHR.as_raw());
    assert_eq!(
        vk_flags::STAGE_ACCELERATION_STRUCTURE_BUILD_KHR,
        vk::PipelineStageFlags::ACCELERATION_STRUCTURE_BUILD_KHR.as_raw()
    );
}

#[test]
fn access_constants_match_vulkan() {
    assert_eq!(vk_flags::ACCESS_INDIRECT_COMMAND_READ, vk::AccessFlags::INDIRECT_COMMAND_READ.as_raw());
    assert_eq!(vk_flags::ACCESS_INDEX_READ, vk::AccessFlags::INDEX_READ.as_raw());
    assert_eq!(vk_flags::ACCESS_VERTEX_ATTRIBUTE_READ, vk::AccessFlags::VERTEX_ATTRIBUTE_READ.as_raw());
    assert_eq!(vk_flags::ACCESS_UNIFORM_READ, vk::AccessFlags::UNIFORM_READ.as_raw());
    assert_eq!(vk_flags::ACCESS_INPUT_ATTACHMENT_READ, vk::AccessFlags::INPUT_ATTACHMENT_READ.as_raw());
    assert_eq!(vk_flags::ACCESS_SHADER_READ, vk::AccessFlags::SHADER_READ.as_raw());
    assert_eq!(vk_flags::ACCESS_SHADER_WRITE, vk::AccessFlags::SHADER_WRITE.as_raw());
    assert_eq!(vk_flags::ACCESS_COLOR_ATTACHMENT_READ, vk::AccessFlags::COLOR_ATTACHMENT_READ.as_raw());
    assert_eq!(vk_flags::ACCESS_COLOR_ATTACHMENT_WRITE, vk::AccessFlags::COLOR_ATTACHMENT_WRITE.as_raw());
    assert_eq!(
        vk_flags::ACCESS_DEPTH_STENCIL_ATTACHMENT_READ,
        vk::AccessFlags::DEPTH_STENCIL_ATTACHMENT_READ.as_raw()
    );
    assert_eq!(
        vk_flags::ACCESS_DEPTH_STENCIL_ATTACHMENT_WRITE,
        vk::AccessFlags::DEPTH_STENCIL_ATTACHMENT_WRITE.as_raw()
    );
    assert_eq!(vk_flags::ACCESS_TRANSFER_READ, vk::AccessFlags::TRANSFER_READ.as_raw());
    assert_eq!(vk_flags::ACCESS_TRANSFER_WRITE, vk::AccessFlags::TRANSFER_WRITE.as_raw());
    assert_eq!(vk_flags::ACCESS_HOST_READ, vk::AccessFlags::HOST_READ.as_raw());
    assert_eq!(vk_flags::ACCESS_HOST_WRITE, vk::AccessFlags::HOST_WRITE.as_raw());
    assert_eq!(vk_flags::ACCESS_MEMORY_READ, vk::AccessFlags::MEMORY_READ.as_raw());
    assert_eq!(vk_flags::ACCESS_MEMORY_WRITE, vk::AccessFlags::MEMORY_WRITE.as_raw());
    assert_eq!(vk_flags::ACCESS_COMMAND_PREPROCESS_READ_NV, vk::AccessFlags::COMMAND_PREPROCESS_READ_NV.as_raw());
    assert_eq!(vk_flags::ACCESS_COMMAND_PREPROCESS_WRITE_NV, vk::AccessFlags::COMMAND_PREPROCESS_WRITE_NV.as_raw());
    assert_eq!(
        vk_flags::ACCESS_ACCELERATION_STRUCTURE_READ_KHR,
        vk::AccessFlags::ACCELERATION_STRUCTURE_READ_KHR.as_raw()
    );
    assert_eq!(
        vk_flags::ACCESS_ACCELERATION_STRUCTURE_WRITE_KHR,
        vk::AccessFlags::ACCELERATION_STRUCTURE_WRITE_KHR.as_raw()
    );
    let all_writes = vk::AccessFlags::SHADER_WRITE
        | vk::AccessFlags::COLOR_ATTACHMENT_WRITE
        | vk::AccessFlags::DEPTH_STENCIL_ATTACHMENT_WRITE
        | vk::AccessFlags::TRANSFER_WRITE
        | vk::AccessFlags::HOST_WRITE
        | vk::AccessFlags::MEMORY_WRITE
        | vk::AccessFlags::COMMAND_PREPROCESS_WRITE_NV
        | vk::AccessFlags::ACCELERATION_STRUCTURE_WRITE_KHR;
    assert_eq!(vk_flags::ACCESS_ALL_WRITES, all_writes.as_raw());
}

#[test]
fn layout_and_aspect_constants_match_vulkan() {
    assert_eq!(convert_layout(ImageLayout::Undefined), vk::ImageLayout::UNDEFINED.as_raw());
    assert_eq!(convert_layout(ImageLayout::General), vk::ImageLayout::GENERAL.as_raw());
    assert_eq!(convert_layout(ImageLayout::ShaderReadOnlyOptimal), vk::ImageLayout::SHADER_READ_ONLY_OPTIMAL.as_raw());
    assert_eq!(
        convert_layout(ImageLayout::DepthStencilReadOnlyOptimal),
        vk::ImageLayout::DEPTH_STENCIL_READ_ONLY_OPTIMAL.as_raw()
    );
    assert_eq!(
        convert_layout(ImageLayout::DepthStencilAttachmentOptimal),
        vk::ImageLayout::DEPTH_STENCIL_ATTACHMENT_OPTIMAL.as_raw()
    );
    assert_eq!(
        convert_layout(ImageLayout::DepthAttachmentStencilReadOnlyOptimal),
        vk::ImageLayout::DEPTH_ATTACHMENT_STENCIL_READ_ONLY_OPTIMAL.as_raw()
    );
    assert_eq!(
        convert_layout(ImageLayout::DepthReadOnlyStencilAttachmentOptimal),
        vk::ImageLayout::DEPTH_READ_ONLY_STENCIL_ATTACHMENT_OPTIMAL.as_raw()
    );
    assert_eq!(convert_layout(ImageLayout::DepthAttachmentOptimal), vk::ImageLayout::DEPTH_ATTACHMENT_OPTIMAL.as_raw());
    assert_eq!(convert_layout(ImageLayout::DepthReadOnlyOptimal), vk::ImageLayout::DEPTH_READ_ONLY_OPTIMAL.as_raw());
    assert_eq!(
        convert_layout(ImageLayout::ColorAttachmentOptimal),
        vk::ImageLayout::COLOR_ATTACHMENT_OPTIMAL.as_raw()
    );
    assert_eq!(convert_layout(ImageLayout::TransferSrcOptimal), vk::ImageLayout::TRANSFER_SRC_OPTIMAL.as_raw());
    assert_eq!(convert_layout(ImageLayout::TransferDstOptimal), vk::ImageLayout::TRANSFER_DST_OPTIMAL.as_raw());
    assert_eq!(convert_layout(ImageLayout::PresentSrc), vk::ImageLayout::PRESENT_SRC_KHR.as_raw());
    assert_eq!(convert_aspect_mask(AspectMask::Color), vk::ImageAspectFlags::COLOR.as_raw());
    assert_eq!(convert_aspect_mask(AspectMask::Depth), vk::ImageAspectFlags::DEPTH.as_raw());
    assert_eq!(convert_aspect_mask(AspectMask::Stencil), vk::ImageAspectFlags::STENCIL.as_raw());
    assert_eq!(convert_aspect_mask(AspectMask::Metadata), vk::ImageAspectFlags::METADATA.as_raw());
    assert_eq!(vk_flags::REMAINING_MIP_LEVELS, vk::REMAINING_MIP_LEVELS);
    assert_eq!(vk_flags::REMAINING_ARRAY_LAYERS, vk::REMAINING_ARRAY_LAYERS);
}

#[test]
fn access_info_of_common_accesses() {
    let info = get_access_info(AccessType::ColorAttachmentWrite);
    assert_eq!(info.stage_mask, vk::PipelineStageFlags::COLOR_ATTACHMENT_OUTPUT.as_raw());
    assert_eq!(info.access_mask, vk::AccessFlags::COLOR_ATTACHMENT_WRITE.as_raw());
    let info = get_access_info(AccessType::FragmentShaderReadSampledImageOrUniformTexelBuffer);
    assert_eq!(info.stage_mask, vk::PipelineStageFlags::FRAGMENT_SHADER.as_raw());
    assert_eq!(info.access_mask, vk::AccessFlags::SHADER_READ.as_raw());
    let info = get_access_info(AccessType::Nothing);
    assert_eq!(info.stage_mask, 0);
    assert_eq!(info.access_mask, 0);
    let info = get_access_info(AccessType::Present);
    assert_eq!(info.stage_mask, 0);
    assert_eq!(info.access_mask, 0);
    let info = get_access_info(AccessType::TransferWrite);
    assert_eq!(info.stage_mask, vk::PipelineStageFlags::TRANSFER.as_raw());
    assert_eq!(info.access_mask, vk::AccessFlags::TRANSFER_WRITE.as_raw());
}

#[test]
fn write_accesses_are_recognised() {
    assert!(is_write_access(AccessType::ColorAttachmentWrite));
    assert!(is_write_access(AccessType::TransferWrite));
    assert!(is_write_access(AccessType::AnyShaderWrite));
    assert!(is_write_access(AccessType::DepthStencilAttachmentWrite));
    assert!(!is_write_access(AccessType::TransferRead));
    assert!(!is_write_access(AccessType::Nothing));
    assert!(!is_write_access(AccessType::Present));
    assert!(!is_write_access(AccessType::FragmentShaderReadSampledImageOrUniformTexelBuffer));
}

#[test]
fn access_type_default_is_nothing() {
    assert_eq!(AccessType::default(), AccessType::Nothing);
}

#[test]
fn subresource_range_covers_whole_image() {
    let r = make_subresource_range(AspectMask::Depth);
    assert_eq!(r.aspect_mask, vk::ImageAspectFlags::DEPTH.as_raw());
    assert_eq!(r.base_mip_level, 0);
    assert_eq!(r.level_count, vk::REMAINING_MIP_LEVELS);
    assert_eq!(r.base_array_layer, 0);
    assert_eq!(r.layer_count, vk::REMAINING_ARRAY_LAYERS);
}

#[test]
fn write_then_read_barrier_makes_write_visible() {
    let previous = [AccessType::ColorAttachmentWrite];
    let next = [AccessType::FragmentShaderReadSampledImageOrUniformTexelBuffer];
    let barrier = ImageBarrier {
        previous_accesses: &previous,
        next_accesses: &next,
        previous_layout: ImageLayout::ColorAttachmentOptimal,
        next_layout: ImageLayout::ShaderReadOnlyOptimal,
        image: 0xABCD,
        aspect_mask: AspectMask::Color,
    };
    let (src, dst, b) = get_image_memory_barrier(3, &barrier);
    assert_eq!(src, vk::PipelineStageFlags::COLOR_ATTACHMENT_OUTPUT.as_raw());
    assert_eq!(dst, vk::PipelineStageFlags::FRAGMENT_SHADER.as_raw());
    assert_eq!(b.src_access_mask, vk::AccessFlags::COLOR_ATTACHMENT_WRITE.as_raw());
    assert_eq!(b.dst_access_mask, vk::AccessFlags::SHADER_READ.as_raw());
    assert_eq!(b.old_layout, vk::ImageLayout::COLOR_ATTACHMENT_OPTIMAL.as_raw());
    assert_eq!(b.new_layout, vk::ImageLayout::SHADER_READ_ONLY_OPTIMAL.as_raw());
    assert_eq!(b.src_queue_family_index, 3);
    assert_eq!(b.dst_queue_family_index, 3);
    assert_eq!(b.image, 0xABCD);
    assert_eq!(b.subresource_range.aspect_mask, vk::ImageAspectFlags::COLOR.as_raw());
}

#[test]
fn read_then_write_barrier_needs_no_visibility() {
    let previous = [AccessType::TransferRead];
    let next = [AccessType::TransferWrite];
    let barrier = ImageBarrier {
        previous_accesses: &previous,
        next_accesses: &next,
        previous_layout: ImageLayout::TransferSrcOptimal,
        next_layout: ImageLayout::TransferDstOptimal,
        image: 7,
        aspect_mask: AspectMask::Color,
    };
    let (src, dst, b) = get_image_memory_barrier(0, &barrier);
    assert_eq!(src, vk::PipelineStageFlags::TRANSFER.as_raw());
    assert_eq!(dst, vk::PipelineStageFlags::TRANSFER.as_raw());
    assert_eq!(b.src_access_mask, 0);
    assert_eq!(b.dst_access_mask, 0);
}

#[test]
fn barrier_without_previous_access_discards_contents() {
    let previous: [AccessType; 0] = [];
    let next = [AccessType::ColorAttachmentWrite];
    let barrier = ImageBarrier {
        previous_accesses: &previous,
        next_accesses: &next,
        previous_layout: ImageLayout::ColorAttachmentOptimal,
        next_layout: ImageLayout::ColorAttachmentOptimal,
        image: 1,
        aspect_mask: AspectMask::Color,
    };
    let (src, dst, b) = get_image_memory_barrier(0, &barrier);
    assert_eq!(src, vk::PipelineStageFlags::TOP_OF_PIPE.as_raw());
    assert_eq!(dst, vk::PipelineStageFlags::COLOR_ATTACHMENT_OUTPUT.as_raw());
    assert_eq!(b.old_layout, vk::ImageLayout::UNDEFINED.as_raw());
    assert_eq!(b.new_layout, vk::ImageLayout::COLOR_ATTACHMENT_OPTIMAL.as_raw());
    assert_eq!(b.src_access_mask, 0);
    assert_eq!(b.dst_access_mask, 0);
}

#[test]
fn barrier_result_independent_of_access_order() {
    let a = [AccessType::ColorAttachmentWrite, AccessType::TransferWrite];
    let b = [AccessType::TransferWrite, AccessType::ColorAttachmentWrite];
    let next = [AccessType::TransferRead, AccessType::FragmentShaderReadSampledImageOrUniformTexelBuffer];
    let next_rev = [AccessType::FragmentShaderReadSampledImageOrUniformTexelBuffer, AccessType::TransferRead];
    let b1 = ImageBarrier {
        previous_accesses: &a,
        next_accesses: &next,
        previous_layout: ImageLayout::General,
        next_layout: ImageLayout::General,
        image: 9,
        aspect_mask: AspectMask::Color,
    };
    let b2 = ImageBarrier {
        previous_accesses: &b,
        next_accesses: &next_rev,
        previous_layout: ImageLayout::General,
        next_layout: ImageLayout::General,
        image: 9,
        aspect_mask: AspectMask::Color,
    };
    assert_eq!(get_image_memory_barrier(0, &b1), get_image_memory_barrier(0, &b2));
}

#[test]
fn access_table_matches_vulkan_stages_and_accesses() {
    let table = [
        (
            AccessType::TessellationEvaluationShaderReadSampledImageOrUniformTexelBuffer,
            vk::PipelineStageFlags::TESSELLATION_EVALUATION_SHADER.as_raw(),
            vk::AccessFlags::SHADER_READ.as_raw(),
        ),
        (AccessType::Nothing, 0, 0),
        (AccessType::CommandBufferReadNVX, vk::PipelineStageFlags::COMMAND_PREPROCESS_NV.as_raw(), vk::AccessFlags::COMMAND_PREPROCESS_READ_NV.as_raw()),
        (AccessType::IndirectBuffer, vk::PipelineStageFlags::DRAW_INDIRECT.as_raw(), vk::AccessFlags::INDIRECT_COMMAND_READ.as_raw()),
        (AccessType::IndexBuffer, vk::PipelineStageFlags::VERTEX_INPUT.as_raw(), vk::AccessFlags::INDEX_READ.as_raw()),
        (AccessType::VertexBuffer, vk::PipelineStageFlags::VERTEX_INPUT.as_raw(), vk::AccessFlags::VERTEX_ATTRIBUTE_READ.as_raw()),
        (AccessType::VertexShaderReadUniformBuffer, vk::PipelineStageFlags::VERTEX_SHADER.as_raw(), vk::AccessFlags::SHADER_READ.as_raw()),
        (AccessType::VertexShaderReadSampledImageOrUniformTexelBuffer, vk::PipelineStageFlags::VERTEX_SHADER.as_raw(), vk::AccessFlags::SHADER_READ.as_raw()),
        (AccessType::VertexShaderReadOther, vk::PipelineStageFlags::VERTEX_SHADER.as_raw(), vk::AccessFlags::SHADER_READ.as_raw()),
        (AccessType::TessellationControlShaderReadUniformBuffer, vk::PipelineStageFlags::TESSELLATION_CONTROL_SHADER.as_raw(), vk::AccessFlags::UNIFORM_READ.as_raw()),
        (AccessType::TessellationControlShaderReadSampledImageOrUniformTexelBuffer, vk::PipelineStageFlags::TESSELLATION_CONTROL_SHADER.as_raw(), vk::AccessFlags::SHADER_READ.as_raw()),
        (AccessType::TessellationControlShaderReadOther, vk::PipelineStageFlags::TESSELLATION_CONTROL_SHADER.as_raw(), vk::AccessFlags::SHADER_READ.as_raw()),
        (AccessType::TessellationEvaluationShaderReadUniformBuffer, vk::PipelineStageFlags::TESSELLATION_EVALUATION_SHADER.as_raw(), vk::AccessFlags::UNIFORM_READ.as_raw()),
        (AccessType::TessellationEvaluationShaderReadOther, vk::PipelineStageFlags::TESSELLATION_EVALUATION_SHADER.as_raw(), vk::AccessFlags::SHADER_READ.as_raw()),
        (AccessType::GeometryShaderReadUniformBuffer, vk::PipelineStageFlags::GEOMETRY_SHADER.as_raw(), vk::AccessFlags::UNIFORM_READ.as_raw()),
        (AccessType::GeometryShaderReadSampledImageOrUniformTexelBuffer, vk::PipelineStageFlags::GEOMETRY_SHADER.as_raw(), vk::AccessFlags::SHADER_READ.as_raw()),
        (AccessType::GeometryShaderReadOther, vk::PipelineStageFlags::GEOMETRY_SHADER.as_raw(), vk::AccessFlags::SHADER_READ.as_raw()),
        (AccessType::FragmentShaderReadUniformBuffer, vk::PipelineStageFlags::FRAGMENT_SHADER.as_raw(), vk::AccessFlags::UNIFORM_READ.as_raw()),
        (AccessType::FragmentShaderReadSampledImageOrUniformTexelBuffer, vk::PipelineStageFlags::FRAGMENT_SHADER.as_raw(), vk::AccessFlags::SHADER_READ.as_raw()),
        (AccessType::FragmentShaderReadColorInputAttachment, vk::PipelineStageFlags::FRAGMENT_SHADER.as_raw(), vk::AccessFlags::INPUT_ATTACHMENT_READ.as_raw()),
        (AccessType::FragmentShaderReadDepthStencilInputAttachment, vk::PipelineStageFlags::FRAGMENT_SHADER.as_raw(), vk::AccessFlags::INPUT_ATTACHMENT_READ.as_raw()),
        (AccessType::FragmentShaderReadOther, vk::PipelineStageFlags::FRAGMENT_SHADER.as_raw(), vk::AccessFlags::SHADER_READ.as_raw()),
        (AccessType::ColorAttachmentRead, vk::PipelineStageFlags::COLOR_ATTACHMENT_OUTPUT.as_raw(), vk::AccessFlags::COLOR_ATTACHMENT_READ.as_raw()),
        (AccessType::DepthStencilAttachmentRead, vk::PipelineStageFlags::EARLY_FRAGMENT_TESTS.as_raw() | vk::PipelineStageFlags::LATE_FRAGMENT_TESTS.as_raw(), vk::AccessFlags::DEPTH_STENCIL_ATTACHMENT_READ.as_raw()),
        (AccessType::ComputeShaderReadUniformBuffer, vk::PipelineStageFlags::COMPUTE_SHADER.as_raw(), vk::AccessFlags::UNIFORM_READ.as_raw()),
        (AccessType::ComputeShaderReadSampledImageOrUniformTexelBuffer, vk::PipelineStageFlags::COMPUTE_SHADER.as_raw(), vk::AccessFlags::SHADER_READ.as_raw()),
        (AccessType::ComputeShaderReadOther, vk::PipelineStageFlags::COMPUTE_SHADER.as_raw(), vk::AccessFlags::SHADER_READ.as_raw()),
        (AccessType::AnyShaderReadUniformBuffer, vk::PipelineStageFlags::ALL_COMMANDS.as_raw(), vk::AccessFlags::UNIFORM_READ.as_raw()),
        (AccessType::AnyShaderReadUniformBufferOrVertexBuffer, vk::PipelineStageFlags::ALL_COMMANDS.as_raw(), vk::AccessFlags::UNIFORM_READ.as_raw() | vk::AccessFlags::VERTEX_ATTRIBUTE_READ.as_raw()),
        (AccessType::AnyShaderReadSampledImageOrUniformTexelBuffer, vk::PipelineStageFlags::ALL_COMMANDS.as_raw(), vk::AccessFlags::SHADER_READ.as_raw()),
        (AccessType::AnyShaderReadOther, vk::PipelineStageFlags::ALL_COMMANDS.as_raw(), vk::AccessFlags::SHADER_READ.as_raw()),
        (AccessType::TransferRead, vk::PipelineStageFlags::TRANSFER.as_raw(), vk::AccessFlags::TRANSFER_READ.as_raw()),
        (AccessType::HostRead, vk::PipelineStageFlags::HOST.as_raw(), vk::AccessFlags::HOST_READ.as_raw()),
        (AccessType::Present, 0, 0),
        (AccessType::CommandBufferWriteNVX, vk::PipelineStageFlags::COMMAND_PREPROCESS_NV.as_raw(), vk::AccessFlags::COMMAND_PREPROCESS_WRITE_NV.as_raw()),
        (AccessType::VertexShaderWrite, vk::PipelineStageFlags::VERTEX_SHADER.as_raw(), vk::AccessFlags::SHADER_WRITE.as_raw()),
        (AccessType::TessellationControlShaderWrite, vk::PipelineStageFlags::TESSELLATION_CONTROL_SHADER.as_raw(), vk::AccessFlags::SHADER_WRITE.as_raw()),
        (AccessType::TessellationEvaluationShaderWrite, vk::PipelineStageFlags::TESSELLATION_EVALUATION_SHADER.as_raw(), vk::AccessFlags::SHADER_WRITE.as_raw()),
        (AccessType::GeometryShaderWrite, vk::PipelineStageFlags::GEOMETRY_SHADER.as_raw(), vk::AccessFlags::SHADER_WRITE.as_raw()),
        (AccessType::FragmentShaderWrite, vk::PipelineStageFlags::FRAGMENT_SHADER.as_raw(), vk::AccessFlags::SHADER_WRITE.as_raw()),
        (AccessType::ColorAttachmentWrite, vk::PipelineStageFlags::COLOR_ATTACHMENT_OUTPUT.as_raw(), vk::AccessFlags::COLOR_ATTACHMENT_WRITE.as_raw()),
        (AccessType::DepthStencilAttachmentWrite, vk::PipelineStageFlags::EARLY_FRAGMENT_TESTS.as_raw() | vk::PipelineStageFlags::LATE_FRAGMENT_TESTS.as_raw(), vk::AccessFlags::DEPTH_STENCIL_ATTACHMENT_WRITE.as_raw()),
        (AccessType::DepthAttachmentWriteStencilReadOnly, vk::PipelineStageFlags::EARLY_FRAGMENT_TESTS.as_raw() | vk::PipelineStageFlags::LATE_FRAGMENT_TESTS.as_raw(), vk::AccessFlags::DEPTH_STENCIL_ATTACHMENT_WRITE.as_raw() | vk::AccessFlags::DEPTH_STENCIL_ATTACHMENT_READ.as_raw()),
        (AccessType::StencilAttachmentWriteDepthReadOnly, vk::PipelineStageFlags::EARLY_FRAGMENT_TESTS.as_raw() | vk::PipelineStageFlags::LATE_FRAGMENT_TESTS.as_raw(), vk::AccessFlags::DEPTH_STENCIL_ATTACHMENT_WRITE.as_raw() | vk::AccessFlags::DEPTH_STENCIL_ATTACHMENT_READ.as_raw()),
        (AccessType::ComputeShaderWrite, vk::PipelineStageFlags::COMPUTE_SHADER.as_raw(), vk::AccessFlags::SHADER_WRITE.as_raw()),
        (AccessType::AnyShaderWrite, vk::PipelineStageFlags::ALL_COMMANDS.as_raw(), vk::AccessFlags::SHADER_WRITE.as_raw()),
        (AccessType::TransferWrite, vk::PipelineStageFlags::TRANSFER.as_raw(), vk::AccessFlags::TRANSFER_WRITE.as_raw()),
        (AccessType::HostWrite, vk::PipelineStageFlags::HOST.as_raw(), vk::AccessFlags::HOST_WRITE.as_raw()),
        (AccessType::ColorAttachmentReadWrite, vk::PipelineStageFlags::COLOR_ATTACHMENT_OUTPUT.as_raw(), vk::AccessFlags::COLOR_ATTACHMENT_READ.as_raw() | vk::AccessFlags::COLOR_ATTACHMENT_WRITE.as_raw()),
        (AccessType::General, vk::PipelineStageFlags::ALL_COMMANDS.as_raw(), vk::AccessFlags::MEMORY_READ.as_raw() | vk::AccessFlags::MEMORY_WRITE.as_raw()),
        (AccessType::RayTracingShaderReadSampledImageOrUniformTexelBuffer, vk::PipelineStageFlags::RAY_TRACING_SHADER_KHR.as_raw(), vk::AccessFlags::SHADER_READ.as_raw()),
        (AccessType::RayTracingShaderReadColorInputAttachment, vk::PipelineStageFlags::RAY_TRACING_SHADER_KHR.as_raw(), vk::AccessFlags::INPUT_ATTACHMENT_READ.as_raw()),
        (AccessType::RayTracingShaderReadDepthStencilInputAttachment, vk::PipelineStageFlags::RAY_TRACING_SHADER_KHR.as_raw(), vk::AccessFlags::INPUT_ATTACHMENT_READ.as_raw()),
        (AccessType::RayTracingShaderReadAccelerationStructure, vk::PipelineStageFlags::RAY_TRACING_SHADER_KHR.as_raw(), vk::AccessFlags::ACCELERATION_STRUCTURE_READ_KHR.as_raw()),
        (AccessType::RayTracingShaderReadOther, vk::PipelineStageFlags::RAY_TRACING_SHADER_KHR.as_raw(), vk::AccessFlags::SHADER_READ.as_raw()),
        (AccessType::AccelerationStructureBuildWrite, vk::PipelineStageFlags::ACCELERATION_STRUCTURE_BUILD_KHR.as_raw(), vk::AccessFlags::ACCELERATION_STRUCTURE_WRITE_KHR.as_raw()),
        (AccessType::AccelerationStructureBuildRead, vk::PipelineStageFlags::ACCELERATION_STRUCTURE_BUILD_KHR.as_raw(), vk::AccessFlags::ACCELERATION_STRUCTURE_READ_KHR.as_raw()),
        (AccessType::AccelerationStructureBufferWrite, vk::PipelineStageFlags::ACCELERATION_STRUCTURE_BUILD_KHR.as_raw(), vk::AccessFlags::TRANSFER_WRITE.as_raw()),
        (AccessType::ComputeShaderReadAccelerationStructure, vk::PipelineStageFlags::COMPUTE_SHADER.as_raw(), vk::AccessFlags::ACCELERATION_STRUCTURE_READ_KHR.as_raw()),
    ];
    for (access, stage, mask) in table {
        let info = get_access_info(access);
        assert_eq!(info.stage_mask, stage, "{:?}", access);
        assert_eq!(info.access_mask, mask, "{:?}", access);
    }
    let writes = [AccessType::CommandBufferWriteNVX, AccessType::VertexShaderWrite, AccessType::TessellationControlShaderWrite, AccessType::TessellationEvaluationShaderWrite, AccessType::GeometryShaderWrite, AccessType::FragmentShaderWrite, AccessType::ColorAttachmentWrite, AccessType::DepthStencilAttachmentWrite, AccessType::DepthAttachmentWriteStencilReadOnly, AccessType::StencilAttachmentWriteDepthReadOnly, AccessType::ComputeShaderWrite, AccessType::AnyShaderWrite, AccessType::TransferWrite, AccessType::HostWrite, AccessType::ColorAttachmentReadWrite, AccessType::General, AccessType::AccelerationStructureBuildWrite, AccessType::AccelerationStructureBufferWrite];
    for (access, _, _) in table {
        assert_eq!(is_write_access(access), writes.contains(&access), "{:?}", access);
    }
}
