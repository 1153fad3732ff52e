//! Resource access types and the pipeline barriers derived from them.
//!
//! The access table follows Graham Wihlidal's vk-sync (MIT licensed): each access
//! type names the pipeline stages that perform it and the memory accesses it makes.

use vstd::prelude::*;
use crate::vk_flags;

verus! {

/// Defines all potential resource usages
#[derive(Debug, Clone, Copy, PartialEq, Eq, Structural)]
pub enum AccessType {
    /// No access. Useful primarily for initialization
    Nothing,
    /// Command buffer read operation as defined by `NVX_device_generated_commands`
    CommandBufferReadNVX,
    /// Read as an indirect buffer for drawing or dispatch
    IndirectBuffer,
    /// Read as an index buffer for drawing
    IndexBuffer,
    /// Read as a vertex buffer for drawing
    VertexBuffer,
    /// Read as a uniform buffer in a vertex shader
    VertexShaderReadUniformBuffer,
    /// Read as a sampled image/uniform texel buffer in a vertex shader
    VertexShaderReadSampledImageOrUniformTexelBuffer,
    /// Read as any other resource in a vertex shader
    VertexShaderReadOther,
    /// Read as a uniform buffer in a tessellation control shader
    TessellationControlShaderReadUniformBuffer,
    /// Read as a sampled image/uniform texel buffer in a tessellation control shader
    TessellationControlShaderReadSampledImageOrUniformTexelBuffer,
    /// Read as any other resource in a tessellation control shader
    TessellationControlShaderReadOther,
    /// Read as a uniform buffer in a tessellation evaluation shader
    TessellationEvaluationShaderReadUniformBuffer,
    /// Read as a sampled image/uniform texel buffer in a tessellation evaluation shader
    TessellationEvaluationShaderReadSampledImageOrUniformTexelBuffer,
    /// Read as any other resource in a tessellation evaluation shader
    TessellationEvaluationShaderReadOther,
    /// Read as a uniform buffer in a geometry shader
    GeometryShaderReadUniformBuffer,
    /// Read as a sampled image/uniform texel buffer in a geometry shader
    GeometryShaderReadSampledImageOrUniformTexelBuffer,
    /// Read as any other resource in a geometry shader
    GeometryShaderReadOther,
    /// Read as a uniform buffer in a fragment shader
    FragmentShaderReadUniformBuffer,
    /// Read as a sampled image/uniform texel buffer in a fragment shader
    FragmentShaderReadSampledImageOrUniformTexelBuffer,
    /// Read as an input attachment with a color format in a fragment shader
    FragmentShaderReadColorInputAttachment,
    /// Read as an input attachment with a depth/stencil format in a fragment shader
    FragmentShaderReadDepthStencilInputAttachment,
    /// Read as any other resource in a fragment shader
    FragmentShaderReadOther,
    /// Read by blending/logic operations or subpass load operations
    ColorAttachmentRead,
    /// Read by depth/stencil tests or subpass load operations
    DepthStencilAttachmentRead,
    /// Read as a uniform buffer in a compute shader
    ComputeShaderReadUniformBuffer,
    /// Read as a sampled image/uniform texel buffer in a compute shader
    ComputeShaderReadSampledImageOrUniformTexelBuffer,
    /// Read as any other resource in a compute shader
    ComputeShaderReadOther,
    /// Read as a uniform buffer in any shader
    AnyShaderReadUniformBuffer,
    /// Read as a uniform buffer in any shader, or a vertex buffer
    AnyShaderReadUniformBufferOrVertexBuffer,
    /// Read as a sampled image in any shader
    AnyShaderReadSampledImageOrUniformTexelBuffer,
    /// Read as any other resource (excluding attachments) in any shader
    AnyShaderReadOther,
    /// Read as the source of a transfer operation
    TransferRead,
    /// Read on the host
    HostRead,
    /// Read by the presentation engine (i.e. `vkQueuePresentKHR`)
    Present,
    /// Command buffer write operation as defined by `NVX_device_generated_commands`
    CommandBufferWriteNVX,
    /// Written as any resource in a vertex shader
    VertexShaderWrite,
    /// Written as any resource in a tessellation control shader
    TessellationControlShaderWrite,
    /// Written as any resource in a tessellation evaluation shader
    TessellationEvaluationShaderWrite,
    /// Written as any resource in a geometry shader
    GeometryShaderWrite,
    /// Written as any resource in a fragment shader
    FragmentShaderWrite,
    /// Written as a color attachment during rendering, or via a subpass store op
    ColorAttachmentWrite,
    /// Written as a depth/stencil attachment during rendering, or via a subpass store op
    DepthStencilAttachmentWrite,
    /// Written as a depth aspect of a depth/stencil attachment during rendering, whilst the
    /// stencil aspect is read-only. Requires `VK_KHR_maintenance2` to be enabled.
    DepthAttachmentWriteStencilReadOnly,
    /// Written as a stencil aspect of a depth/stencil attachment during rendering, whilst the
    /// depth aspect is read-only. Requires `VK_KHR_maintenance2` to be enabled.
    StencilAttachmentWriteDepthReadOnly,
    /// Written as any resource in a compute shader
    ComputeShaderWrite,
    /// Written as any resource in any shader
    AnyShaderWrite,
    /// Written as the destination of a transfer operation
    TransferWrite,
    /// Written on the host
    HostWrite,
    /// Read or written as a color attachment during rendering
    ColorAttachmentReadWrite,
    /// Covers any access - useful for debug, generally avoid for performance reasons
    General,
    /// Read as a sampled image/uniform texel buffer in a ray tracing shader
    RayTracingShaderReadSampledImageOrUniformTexelBuffer,
    /// Read as an input attachment with a color format in a ray tracing shader
    RayTracingShaderReadColorInputAttachment,
    /// Read as an input attachment with a depth/stencil format in a ray tracing shader
    RayTracingShaderReadDepthStencilInputAttachment,
    /// Read as an acceleration structure in a ray tracing shader
    RayTracingShaderReadAccelerationStructure,
    /// Read as any other resource in a ray tracing shader
    RayTracingShaderReadOther,
    /// Written as an acceleration structure during acceleration structure building
    AccelerationStructureBuildWrite,
    /// Read as an acceleration structure during acceleration structure building (e.g. a BLAS when building a TLAS)
    AccelerationStructureBuildRead,
    /// Written as a buffer during acceleration structure building (e.g. a staging buffer)
    AccelerationStructureBufferWrite,
    /// Read as an acceleration structure in a compute shader (ray queries)
    ComputeShaderReadAccelerationStructure,
}

impl Default for AccessType {
    fn default() -> (r: AccessType)
        ensures
            r == AccessType::Nothing,
    {
        AccessType::Nothing
    }
}

/// Defines a handful of layout options for images.
/// Rather than a list of all possible image layouts, this reduced list is
/// correlated with the access types to map to the correct Vulkan layouts.
/// `Optimal` is usually preferred.
#[derive(Debug, Clone, Copy, PartialEq, Eq, Structural)]
pub enum ImageLayout {
    General,
    Undefined,
    ShaderReadOnlyOptimal,
    DepthStencilReadOnlyOptimal,
    DepthStencilAttachmentOptimal,
    DepthAttachmentStencilReadOnlyOptimal,
    DepthReadOnlyStencilAttachmentOptimal,
    DepthAttachmentOptimal,
    DepthReadOnlyOptimal,
    ColorAttachmentOptimal,
    TransferSrcOptimal,
    TransferDstOptimal,
    PresentSrc,
}

/// The aspect of an image that a barrier covers.
#[derive(Debug, Clone, Copy, PartialEq, Eq, Structural)]
pub enum AspectMask {
    Color,
    Depth,
    Stencil,
    Metadata,
}

/// Global barriers define a set of accesses on multiple resources at once.
/// If a buffer or image doesn't require a queue ownership transfer, or an image
/// doesn't require a layout transition (e.g. you're using one of the
/// `ImageLayout::General*` layouts) then a global barrier should be preferred.
///
/// Simply define the previous and next access types of resources affected.
pub struct GlobalBarrier<'a> {
    pub previous_accesses: &'a [AccessType],
    pub next_accesses: &'a [AccessType],
}

/// Buffer barriers should only be used when a queue family ownership transfer
/// is required - prefer global barriers at all other times.
///
/// Access types are defined in the same way as for a global memory barrier, but
/// they only affect the buffer range identified by `buffer`, `offset` and `size`,
/// rather than all resources. `buffer` is the raw Vulkan handle of the buffer.
pub struct BufferBarrier<'a> {
    pub previous_accesses: &'a [AccessType],
    pub next_accesses: &'a [AccessType],
    pub buffer: u64,
    pub offset: usize,
    pub size: usize,
}

/// A layout transition and memory dependency on one image; `image` is the raw
/// Vulkan handle of the image.
pub struct ImageBarrier<'a> {
    pub previous_accesses: &'a [AccessType],
    pub next_accesses: &'a [AccessType],
    pub previous_layout: ImageLayout,
    pub next_layout: ImageLayout,
    pub image: u64,
    pub aspect_mask: AspectMask,
}

/// The stages and memory accesses of one access type.
#[derive(Debug, Clone, Copy, PartialEq, Eq, Structural)]
pub struct AccessInfo {
    pub stage_mask: u32,
    pub access_mask: u32,
}

/// `VkImageSubresourceRange` as raw values.
#[derive(Debug, Clone, Copy, PartialEq, Eq, Structural)]
pub struct ImageSubresourceRange {
    pub aspect_mask: u32,
    pub base_mip_level: u32,
    pub level_count: u32,
    pub base_array_layer: u32,
    pub layer_count: u32,
}

/// `VkImageMemoryBarrier` as raw values (no extension chain).
#[derive(Debug, Clone, Copy, PartialEq, Eq, Structural)]
pub struct ImageMemoryBarrier {
    pub src_access_mask: u32,
    pub dst_access_mask: u32,
    pub old_layout: i32,
    pub new_layout: i32,
    pub src_queue_family_index: u32,
    pub dst_queue_family_index: u32,
    pub image: u64,
    pub subresource_range: ImageSubresourceRange,
}

/// The pipeline stages that perform an access.
pub open spec fn stage_mask_of(a: AccessType) -> u32 {
    match a {
        AccessType::Nothing | AccessType::Present => 0,
        AccessType::CommandBufferReadNVX | AccessType::CommandBufferWriteNVX =>
            vk_flags::STAGE_COMMAND_PREPROCESS_NV,
        AccessType::IndirectBuffer => vk_flags::STAGE_DRAW_INDIRECT,
        AccessType::IndexBuffer | AccessType::VertexBuffer => vk_flags::STAGE_VERTEX_INPUT,
        AccessType::VertexShaderReadUniformBuffer
        | AccessType::VertexShaderReadSampledImageOrUniformTexelBuffer
        | AccessType::VertexShaderReadOther
        | AccessType::VertexShaderWrite => vk_flags::STAGE_VERTEX_SHADER,
        AccessType::TessellationControlShaderReadUniformBuffer
        | AccessType::TessellationControlShaderReadSampledImageOrUniformTexelBuffer
        | AccessType::TessellationControlShaderReadOther
        | AccessType::TessellationControlShaderWrite =>
            vk_flags::STAGE_TESSELLATION_CONTROL_SHADER,
        AccessType::TessellationEvaluationShaderReadUniformBuffer
        | AccessType::TessellationEvaluationShaderReadSampledImageOrUniformTexelBuffer
        | AccessType::TessellationEvaluationShaderReadOther
        | AccessType::TessellationEvaluationShaderWrite =>
            vk_flags::STAGE_TESSELLATION_EVALUATION_SHADER,
        AccessType::GeometryShaderReadUniformBuffer
        | AccessType::GeometryShaderReadSampledImageOrUniformTexelBuffer
        | AccessType::GeometryShaderReadOther
        | AccessType::GeometryShaderWrite => vk_flags::STAGE_GEOMETRY_SHADER,
        AccessType::FragmentShaderReadUniformBuffer
        | AccessType::FragmentShaderReadSampledImageOrUniformTexelBuffer
        | AccessType::FragmentShaderReadColorInputAttachment
        | AccessType::FragmentShaderReadDepthStencilInputAttachment
        | AccessType::FragmentShaderReadOther
        | AccessType::FragmentShaderWrite => vk_flags::STAGE_FRAGMENT_SHADER,
        AccessType::ColorAttachmentRead
        | AccessType::ColorAttachmentWrite
        | AccessType::ColorAttachmentReadWrite => vk_flags::STAGE_COLOR_ATTACHMENT_OUTPUT,
        AccessType::DepthStencilAttachmentRead
        | AccessType::DepthStencilAttachmentWrite
        | AccessType::DepthAttachmentWriteStencilReadOnly
        | AccessType::StencilAttachmentWriteDepthReadOnly =>
            vk_flags::STAGE_EARLY_FRAGMENT_TESTS | vk_flags::STAGE_LATE_FRAGMENT_TESTS,
        AccessType::ComputeShaderReadUniformBuffer
        | AccessType::ComputeShaderReadSampledImageOrUniformTexelBuffer
        | AccessType::ComputeShaderReadOther
        | AccessType::ComputeShaderWrite
        | AccessType::ComputeShaderReadAccelerationStructure => vk_flags::STAGE_COMPUTE_SHADER,
        AccessType::AnyShaderReadUniformBuffer
        | AccessType::AnyShaderReadUniformBufferOrVertexBuffer
        | AccessType::AnyShaderReadSampledImageOrUniformTexelBuffer
        | AccessType::AnyShaderReadOther
        | AccessType::AnyShaderWrite
        | AccessType::General => vk_flags::STAGE_ALL_COMMANDS,
        AccessType::TransferRead | AccessType::TransferWrite => vk_flags::STAGE_TRANSFER,
        AccessType::HostRead | AccessType::HostWrite => vk_flags::STAGE_HOST,
        AccessType::RayTracingShaderReadSampledImageOrUniformTexelBuffer
        | AccessType::RayTracingShaderReadColorInputAttachment
        | AccessType::RayTracingShaderReadDepthStencilInputAttachment
        | AccessType::RayTracingShaderReadAccelerationStructure
        | AccessType::RayTracingShaderReadOther => vk_flags::STAGE_RAY_TRACING_SHADER_KHR,
        AccessType::AccelerationStructureBuildWrite
        | AccessType::AccelerationStructureBuildRead
        | AccessType::AccelerationStructureBufferWrite =>
            vk_flags::STAGE_ACCELERATION_STRUCTURE_BUILD_KHR,
    }
}

/// The memory accesses that an access type makes.
pub open spec fn access_mask_of(a: AccessType) -> u32 {
    match a {
        AccessType::Nothing | AccessType::Present => 0,
        AccessType::CommandBufferReadNVX => vk_flags::ACCESS_COMMAND_PREPROCESS_READ_NV,
        AccessType::CommandBufferWriteNVX => vk_flags::ACCESS_COMMAND_PREPROCESS_WRITE_NV,
        AccessType::IndirectBuffer => vk_flags::ACCESS_INDIRECT_COMMAND_READ,
        AccessType::IndexBuffer => vk_flags::ACCESS_INDEX_READ,
        AccessType::VertexBuffer => vk_flags::ACCESS_VERTEX_ATTRIBUTE_READ,
        AccessType::TessellationControlShaderReadUniformBuffer
        | AccessType::TessellationEvaluationShaderReadUniformBuffer
        | AccessType::GeometryShaderReadUniformBuffer
        | AccessType::FragmentShaderReadUniformBuffer
        | AccessType::ComputeShaderReadUniformBuffer
        | AccessType::AnyShaderReadUniformBuffer => vk_flags::ACCESS_UNIFORM_READ,
        AccessType::AnyShaderReadUniformBufferOrVertexBuffer =>
            vk_flags::ACCESS_UNIFORM_READ | vk_flags::ACCESS_VERTEX_ATTRIBUTE_READ,
        AccessType::VertexShaderReadUniformBuffer
        | AccessType::VertexShaderReadSampledImageOrUniformTexelBuffer
        | AccessType::VertexShaderReadOther
        | AccessType::TessellationControlShaderReadSampledImageOrUniformTexelBuffer
        | AccessType::TessellationControlShaderReadOther
        | AccessType::TessellationEvaluationShaderReadSampledImageOrUniformTexelBuffer
        | AccessType::TessellationEvaluationShaderReadOther
        | AccessType::GeometryShaderReadSampledImageOrUniformTexelBuffer
        | AccessType::GeometryShaderReadOther
        | AccessType::FragmentShaderReadSampledImageOrUniformTexelBuffer
        | AccessType::FragmentShaderReadOther
        | AccessType::ComputeShaderReadSampledImageOrUniformTexelBuffer
        | AccessType::ComputeShaderReadOther
        | AccessType::AnyShaderReadSampledImageOrUniformTexelBuffer
        | AccessType::AnyShaderReadOther
        | AccessType::RayTracingShaderReadSampledImageOrUniformTexelBuffer
        | AccessType::RayTracingShaderReadOther => vk_flags::ACCESS_SHADER_READ,
        AccessType::FragmentShaderReadColorInputAttachment
        | AccessType::FragmentShaderReadDepthStencilInputAttachment
        | AccessType::RayTracingShaderReadColorInputAttachment
        | AccessType::RayTracingShaderReadDepthStencilInputAttachment =>
            vk_flags::ACCESS_INPUT_ATTACHMENT_READ,
        AccessType::ColorAttachmentRead => vk_flags::ACCESS_COLOR_ATTACHMENT_READ,
        AccessType::DepthStencilAttachmentRead => vk_flags::ACCESS_DEPTH_STENCIL_ATTACHMENT_READ,
        AccessType::TransferRead => vk_flags::ACCESS_TRANSFER_READ,
        AccessType::HostRead => vk_flags::ACCESS_HOST_READ,
        AccessType::VertexShaderWrite
        | AccessType::TessellationControlShaderWrite
        | AccessType::TessellationEvaluationShaderWrite
        | AccessType::GeometryShaderWrite
        | AccessType::FragmentShaderWrite
        | AccessType::ComputeShaderWrite
        | AccessType::AnyShaderWrite => vk_flags::ACCESS_SHADER_WRITE,
        AccessType::ColorAttachmentWrite => vk_flags::ACCESS_COLOR_ATTACHMENT_WRITE,
        AccessType::DepthStencilAttachmentWrite => vk_flags::ACCESS_DEPTH_STENCIL_ATTACHMENT_WRITE,
        AccessType::DepthAttachmentWriteStencilReadOnly
        | AccessType::StencilAttachmentWriteDepthReadOnly =>
            vk_flags::ACCESS_DEPTH_STENCIL_ATTACHMENT_WRITE
                | vk_flags::ACCESS_DEPTH_STENCIL_ATTACHMENT_READ,
        AccessType::TransferWrite | AccessType::AccelerationStructureBufferWrite =>
            vk_flags::ACCESS_TRANSFER_WRITE,
        AccessType::HostWrite => vk_flags::ACCESS_HOST_WRITE,
        AccessType::ColorAttachmentReadWrite =>
            vk_flags::ACCESS_COLOR_ATTACHMENT_READ | vk_flags::ACCESS_COLOR_ATTACHMENT_WRITE,
        AccessType::General => vk_flags::ACCESS_MEMORY_READ | vk_flags::ACCESS_MEMORY_WRITE,
        AccessType::RayTracingShaderReadAccelerationStructure
        | AccessType::AccelerationStructureBuildRead
        | AccessType::ComputeShaderReadAccelerationStructure =>
            vk_flags::ACCESS_ACCELERATION_STRUCTURE_READ_KHR,
        AccessType::AccelerationStructureBuildWrite =>
            vk_flags::ACCESS_ACCELERATION_STRUCTURE_WRITE_KHR,
    }
}

/// An access is a write exactly when its memory accesses include a write bit.
pub open spec fn is_write(a: AccessType) -> bool {
    access_mask_of(a) & vk_flags::ACCESS_ALL_WRITES != 0
}

} // verus!

verus! {

/// The stages and memory accesses of `access_type`.
pub fn get_access_info(access_type: AccessType) -> (r: AccessInfo)
    ensures
        r.stage_mask == stage_mask_of(access_type),
        r.access_mask == access_mask_of(access_type),
{
    match access_type {
        AccessType::Nothing => AccessInfo {
            stage_mask: 0,
            access_mask: 0,
        },
        AccessType::CommandBufferReadNVX => AccessInfo {
            stage_mask: vk_flags::STAGE_COMMAND_PREPROCESS_NV,
            access_mask: vk_flags::ACCESS_COMMAND_PREPROCESS_READ_NV,
        },
        AccessType::IndirectBuffer => AccessInfo {
            stage_mask: vk_flags::STAGE_DRAW_INDIRECT,
            access_mask: vk_flags::ACCESS_INDIRECT_COMMAND_READ,
        },
        AccessType::IndexBuffer => AccessInfo {
            stage_mask: vk_flags::STAGE_VERTEX_INPUT,
            access_mask: vk_flags::ACCESS_INDEX_READ,
        },
        AccessType::VertexBuffer => AccessInfo {
            stage_mask: vk_flags::STAGE_VERTEX_INPUT,
            access_mask: vk_flags::ACCESS_VERTEX_ATTRIBUTE_READ,
        },
        AccessType::VertexShaderReadUniformBuffer => AccessInfo {
            stage_mask: vk_flags::STAGE_VERTEX_SHADER,
            access_mask: vk_flags::ACCESS_SHADER_READ,
        },
        AccessType::VertexShaderReadSampledImageOrUniformTexelBuffer => AccessInfo {
            stage_mask: vk_flags::STAGE_VERTEX_SHADER,
            access_mask: vk_flags::ACCESS_SHADER_READ,
        },
        AccessType::VertexShaderReadOther => AccessInfo {
            stage_mask: vk_flags::STAGE_VERTEX_SHADER,
            access_mask: vk_flags::ACCESS_SHADER_READ,
        },
        AccessType::TessellationControlShaderReadUniformBuffer => AccessInfo {
            stage_mask: vk_flags::STAGE_TESSELLATION_CONTROL_SHADER,
            access_mask: vk_flags::ACCESS_UNIFORM_READ,
        },
        AccessType::TessellationControlShaderReadSampledImageOrUniformTexelBuffer => AccessInfo {
            stage_mask: vk_flags::STAGE_TESSELLATION_CONTROL_SHADER,
            access_mask: vk_flags::ACCESS_SHADER_READ,
        },
        AccessType::TessellationControlShaderReadOther => AccessInfo {
            stage_mask: vk_flags::STAGE_TESSELLATION_CONTROL_SHADER,
            access_mask: vk_flags::ACCESS_SHADER_READ,
        },
        AccessType::TessellationEvaluationShaderReadUniformBuffer => AccessInfo {
            stage_mask: vk_flags::STAGE_TESSELLATION_EVALUATION_SHADER,
            access_mask: vk_flags::ACCESS_UNIFORM_READ,
        },
        AccessType::TessellationEvaluationShaderReadSampledImageOrUniformTexelBuffer => AccessInfo {
            stage_mask: vk_flags::STAGE_TESSELLATION_EVALUATION_SHADER,
            access_mask: vk_flags::ACCESS_SHADER_READ,
        },
        AccessType::TessellationEvaluationShaderReadOther => AccessInfo {
            stage_mask: vk_flags::STAGE_TESSELLATION_EVALUATION_SHADER,
            access_mask: vk_flags::ACCESS_SHADER_READ,
        },
        AccessType::GeometryShaderReadUniformBuffer => AccessInfo {
            stage_mask: vk_flags::STAGE_GEOMETRY_SHADER,
            access_mask: vk_flags::ACCESS_UNIFORM_READ,
        },
        AccessType::GeometryShaderReadSampledImageOrUniformTexelBuffer => AccessInfo {
            stage_mask: vk_flags::STAGE_GEOMETRY_SHADER,
            access_mask: vk_flags::ACCESS_SHADER_READ,
        },
        AccessType::GeometryShaderReadOther => AccessInfo {
            stage_mask: vk_flags::STAGE_GEOMETRY_SHADER,
            access_mask: vk_flags::ACCESS_SHADER_READ,
        },
        AccessType::FragmentShaderReadUniformBuffer => AccessInfo {
            stage_mask: vk_flags::STAGE_FRAGMENT_SHADER,
            access_mask: vk_flags::ACCESS_UNIFORM_READ,
        },
        AccessType::FragmentShaderReadSampledImageOrUniformTexelBuffer => AccessInfo {
            stage_mask: vk_flags::STAGE_FRAGMENT_SHADER,
            access_mask: vk_flags::ACCESS_SHADER_READ,
        },
        AccessType::FragmentShaderReadColorInputAttachment => AccessInfo {
            stage_mask: vk_flags::STAGE_FRAGMENT_SHADER,
            access_mask: vk_flags::ACCESS_INPUT_ATTACHMENT_READ,
        },
        AccessType::FragmentShaderReadDepthStencilInputAttachment => AccessInfo {
            stage_mask: vk_flags::STAGE_FRAGMENT_SHADER,
            access_mask: vk_flags::ACCESS_INPUT_ATTACHMENT_READ,
        },
        AccessType::FragmentShaderReadOther => AccessInfo {
            stage_mask: vk_flags::STAGE_FRAGMENT_SHADER,
            access_mask: vk_flags::ACCESS_SHADER_READ,
        },
        AccessType::ColorAttachmentRead => AccessInfo {
            stage_mask: vk_flags::STAGE_COLOR_ATTACHMENT_OUTPUT,
            access_mask: vk_flags::ACCESS_COLOR_ATTACHMENT_READ,
        },
        AccessType::DepthStencilAttachmentRead => AccessInfo {
            stage_mask: vk_flags::STAGE_EARLY_FRAGMENT_TESTS | vk_flags::STAGE_LATE_FRAGMENT_TESTS,
            access_mask: vk_flags::ACCESS_DEPTH_STENCIL_ATTACHMENT_READ,
        },
        AccessType::ComputeShaderReadUniformBuffer => AccessInfo {
            stage_mask: vk_flags::STAGE_COMPUTE_SHADER,
            access_mask: vk_flags::ACCESS_UNIFORM_READ,
        },
        AccessType::ComputeShaderReadSampledImageOrUniformTexelBuffer => AccessInfo {
            stage_mask: vk_flags::STAGE_COMPUTE_SHADER,
            access_mask: vk_flags::ACCESS_SHADER_READ,
        },
        AccessType::ComputeShaderReadOther => AccessInfo {
            stage_mask: vk_flags::STAGE_COMPUTE_SHADER,
            access_mask: vk_flags::ACCESS_SHADER_READ,
        },
        AccessType::AnyShaderReadUniformBuffer => AccessInfo {
            stage_mask: vk_flags::STAGE_ALL_COMMANDS,
            access_mask: vk_flags::ACCESS_UNIFORM_READ,
        },
        AccessType::AnyShaderReadUniformBufferOrVertexBuffer => AccessInfo {
            stage_mask: vk_flags::STAGE_ALL_COMMANDS,
            access_mask: vk_flags::ACCESS_UNIFORM_READ | vk_flags::ACCESS_VERTEX_ATTRIBUTE_READ,
        },
        AccessType::AnyShaderReadSampledImageOrUniformTexelBuffer => AccessInfo {
            stage_mask: vk_flags::STAGE_ALL_COMMANDS,
            access_mask: vk_flags::ACCESS_SHADER_READ,
        },
        AccessType::AnyShaderReadOther => AccessInfo {
            stage_mask: vk_flags::STAGE_ALL_COMMANDS,
            access_mask: vk_flags::ACCESS_SHADER_READ,
        },
        AccessType::TransferRead => AccessInfo {
            stage_mask: vk_flags::STAGE_TRANSFER,
            access_mask: vk_flags::ACCESS_TRANSFER_READ,
        },
        AccessType::HostRead => AccessInfo {
            stage_mask: vk_flags::STAGE_HOST,
            access_mask: vk_flags::ACCESS_HOST_READ,
        },
        AccessType::Present => AccessInfo {
            stage_mask: 0,
            access_mask: 0,
        },
        AccessType::CommandBufferWriteNVX => AccessInfo {
            stage_mask: vk_flags::STAGE_COMMAND_PREPROCESS_NV,
            access_mask: vk_flags::ACCESS_COMMAND_PREPROCESS_WRITE_NV,
        },
        AccessType::VertexShaderWrite => AccessInfo {
            stage_mask: vk_flags::STAGE_VERTEX_SHADER,
            access_mask: vk_flags::ACCESS_SHADER_WRITE,
        },
        AccessType::TessellationControlShaderWrite => AccessInfo {
            stage_mask: vk_flags::STAGE_TESSELLATION_CONTROL_SHADER,
            access_mask: vk_flags::ACCESS_SHADER_WRITE,
        },
        AccessType::TessellationEvaluationShaderWrite => AccessInfo {
            stage_mask: vk_flags::STAGE_TESSELLATION_EVALUATION_SHADER,
            access_mask: vk_flags::ACCESS_SHADER_WRITE,
        },
        AccessType::GeometryShaderWrite => AccessInfo {
            stage_mask: vk_flags::STAGE_GEOMETRY_SHADER,
            access_mask: vk_flags::ACCESS_SHADER_WRITE,
        },
        AccessType::FragmentShaderWrite => AccessInfo {
            stage_mask: vk_flags::STAGE_FRAGMENT_SHADER,
            access_mask: vk_flags::ACCESS_SHADER_WRITE,
        },
        AccessType::ColorAttachmentWrite => AccessInfo {
            stage_mask: vk_flags::STAGE_COLOR_ATTACHMENT_OUTPUT,
            access_mask: vk_flags::ACCESS_COLOR_ATTACHMENT_WRITE,
        },
        AccessType::DepthStencilAttachmentWrite => AccessInfo {
            stage_mask: vk_flags::STAGE_EARLY_FRAGMENT_TESTS | vk_flags::STAGE_LATE_FRAGMENT_TESTS,
            access_mask: vk_flags::ACCESS_DEPTH_STENCIL_ATTACHMENT_WRITE,
        },
        AccessType::DepthAttachmentWriteStencilReadOnly => AccessInfo {
            stage_mask: vk_flags::STAGE_EARLY_FRAGMENT_TESTS | vk_flags::STAGE_LATE_FRAGMENT_TESTS,
            access_mask: vk_flags::ACCESS_DEPTH_STENCIL_ATTACHMENT_WRITE | vk_flags::ACCESS_DEPTH_STENCIL_ATTACHMENT_READ,
        },
        AccessType::StencilAttachmentWriteDepthReadOnly => AccessInfo {
            stage_mask: vk_flags::STAGE_EARLY_FRAGMENT_TESTS | vk_flags::STAGE_LATE_FRAGMENT_TESTS,
            access_mask: vk_flags::ACCESS_DEPTH_STENCIL_ATTACHMENT_WRITE | vk_flags::ACCESS_DEPTH_STENCIL_ATTACHMENT_READ,
        },
        AccessType::ComputeShaderWrite => AccessInfo {
            stage_mask: vk_flags::STAGE_COMPUTE_SHADER,
            access_mask: vk_flags::ACCESS_SHADER_WRITE,
        },
        AccessType::AnyShaderWrite => AccessInfo {
            stage_mask: vk_flags::STAGE_ALL_COMMANDS,
            access_mask: vk_flags::ACCESS_SHADER_WRITE,
        },
        AccessType::TransferWrite => AccessInfo {
            stage_mask: vk_flags::STAGE_TRANSFER,
            access_mask: vk_flags::ACCESS_TRANSFER_WRITE,
        },
        AccessType::HostWrite => AccessInfo {
            stage_mask: vk_flags::STAGE_HOST,
            access_mask: vk_flags::ACCESS_HOST_WRITE,
        },
        AccessType::ColorAttachmentReadWrite => AccessInfo {
            stage_mask: vk_flags::STAGE_COLOR_ATTACHMENT_OUTPUT,
            access_mask: vk_flags::ACCESS_COLOR_ATTACHMENT_READ | vk_flags::ACCESS_COLOR_ATTACHMENT_WRITE,
        },
        AccessType::General => AccessInfo {
            stage_mask: vk_flags::STAGE_ALL_COMMANDS,
            access_mask: vk_flags::ACCESS_MEMORY_READ | vk_flags::ACCESS_MEMORY_WRITE,
        },
        AccessType::RayTracingShaderReadSampledImageOrUniformTexelBuffer => AccessInfo {
            stage_mask: vk_flags::STAGE_RAY_TRACING_SHADER_KHR,
            access_mask: vk_flags::ACCESS_SHADER_READ,
        },
        AccessType::RayTracingShaderReadColorInputAttachment => AccessInfo {
            stage_mask: vk_flags::STAGE_RAY_TRACING_SHADER_KHR,
            access_mask: vk_flags::ACCESS_INPUT_ATTACHMENT_READ,
        },
        AccessType::RayTracingShaderReadDepthStencilInputAttachment => AccessInfo {
            stage_mask: vk_flags::STAGE_RAY_TRACING_SHADER_KHR,
            access_mask: vk_flags::ACCESS_INPUT_ATTACHMENT_READ,
        },
        AccessType::RayTracingShaderReadAccelerationStructure => AccessInfo {
            stage_mask: vk_flags::STAGE_RAY_TRACING_SHADER_KHR,
            access_mask: vk_flags::ACCESS_ACCELERATION_STRUCTURE_READ_KHR,
        },
        AccessType::RayTracingShaderReadOther => AccessInfo {
            stage_mask: vk_flags::STAGE_RAY_TRACING_SHADER_KHR,
            access_mask: vk_flags::ACCESS_SHADER_READ,
        },
        AccessType::AccelerationStructureBuildWrite => AccessInfo {
            stage_mask: vk_flags::STAGE_ACCELERATION_STRUCTURE_BUILD_KHR,
            access_mask: vk_flags::ACCESS_ACCELERATION_STRUCTURE_WRITE_KHR,
        },
        AccessType::AccelerationStructureBuildRead => AccessInfo {
            stage_mask: vk_flags::STAGE_ACCELERATION_STRUCTURE_BUILD_KHR,
            access_mask: vk_flags::ACCESS_ACCELERATION_STRUCTURE_READ_KHR,
        },
        AccessType::AccelerationStructureBufferWrite => AccessInfo {
            stage_mask: vk_flags::STAGE_ACCELERATION_STRUCTURE_BUILD_KHR,
            access_mask: vk_flags::ACCESS_TRANSFER_WRITE,
        },
        AccessType::ComputeShaderReadAccelerationStructure => AccessInfo {
            stage_mask: vk_flags::STAGE_COMPUTE_SHADER,
            access_mask: vk_flags::ACCESS_ACCELERATION_STRUCTURE_READ_KHR,
        },
    }
}

/// Facts about the distinct access masks of the table: which of them hold a write bit.
pub(crate) proof fn lemma_access_write_bits()
    by (bit_vector)
    ensures
        0u32 & vk_flags::ACCESS_ALL_WRITES == 0,
        vk_flags::ACCESS_COMMAND_PREPROCESS_READ_NV & vk_flags::ACCESS_ALL_WRITES == 0,
        vk_flags::ACCESS_COMMAND_PREPROCESS_WRITE_NV & vk_flags::ACCESS_ALL_WRITES != 0,
        vk_flags::ACCESS_INDIRECT_COMMAND_READ & vk_flags::ACCESS_ALL_WRITES == 0,
        vk_flags::ACCESS_INDEX_READ & vk_flags::ACCESS_ALL_WRITES == 0,
        vk_flags::ACCESS_VERTEX_ATTRIBUTE_READ & vk_flags::ACCESS_ALL_WRITES == 0,
        vk_flags::ACCESS_UNIFORM_READ & vk_flags::ACCESS_ALL_WRITES == 0,
        (vk_flags::ACCESS_UNIFORM_READ | vk_flags::ACCESS_VERTEX_ATTRIBUTE_READ)
            & vk_flags::ACCESS_ALL_WRITES == 0,
        vk_flags::ACCESS_SHADER_READ & vk_flags::ACCESS_ALL_WRITES == 0,
        vk_flags::ACCESS_INPUT_ATTACHMENT_READ & vk_flags::ACCESS_ALL_WRITES == 0,
        vk_flags::ACCESS_COLOR_ATTACHMENT_READ & vk_flags::ACCESS_ALL_WRITES == 0,
        vk_flags::ACCESS_DEPTH_STENCIL_ATTACHMENT_READ & vk_flags::ACCESS_ALL_WRITES == 0,
        vk_flags::ACCESS_TRANSFER_READ & vk_flags::ACCESS_ALL_WRITES == 0,
        vk_flags::ACCESS_HOST_READ & vk_flags::ACCESS_ALL_WRITES == 0,
        vk_flags::ACCESS_SHADER_WRITE & vk_flags::ACCESS_ALL_WRITES != 0,
        vk_flags::ACCESS_COLOR_ATTACHMENT_WRITE & vk_flags::ACCESS_ALL_WRITES != 0,
        vk_flags::ACCESS_DEPTH_STENCIL_ATTACHMENT_WRITE & vk_flags::ACCESS_ALL_WRITES != 0,
        (vk_flags::ACCESS_DEPTH_STENCIL_ATTACHMENT_WRITE
            | vk_flags::ACCESS_DEPTH_STENCIL_ATTACHMENT_READ) & vk_flags::ACCESS_ALL_WRITES != 0,
        vk_flags::ACCESS_TRANSFER_WRITE & vk_flags::ACCESS_ALL_WRITES != 0,
        vk_flags::ACCESS_HOST_WRITE & vk_flags::ACCESS_ALL_WRITES != 0,
        (vk_flags::ACCESS_COLOR_ATTACHMENT_READ | vk_flags::ACCESS_COLOR_ATTACHMENT_WRITE)
            & vk_flags::ACCESS_ALL_WRITES != 0,
        (vk_flags::ACCESS_MEMORY_READ | vk_flags::ACCESS_MEMORY_WRITE)
            & vk_flags::ACCESS_ALL_WRITES != 0,
        vk_flags::ACCESS_ACCELERATION_STRUCTURE_READ_KHR & vk_flags::ACCESS_ALL_WRITES == 0,
        vk_flags::ACCESS_ACCELERATION_STRUCTURE_WRITE_KHR & vk_flags::ACCESS_ALL_WRITES != 0,
{
}

/// Whether `access_type` writes memory.
pub fn is_write_access(access_type: AccessType) -> (r: bool)
    ensures
        r == is_write(access_type),
{
    proof {
        lemma_access_write_bits();
    }
    matches!(
        access_type,
        AccessType::CommandBufferWriteNVX
            | AccessType::VertexShaderWrite
            | AccessType::TessellationControlShaderWrite
            | AccessType::TessellationEvaluationShaderWrite
            | AccessType::GeometryShaderWrite
            | AccessType::FragmentShaderWrite
            | AccessType::ColorAttachmentWrite
            | AccessType::DepthStencilAttachmentWrite
            | AccessType::DepthAttachmentWriteStencilReadOnly
            | AccessType::StencilAttachmentWriteDepthReadOnly
            | AccessType::ComputeShaderWrite
            | AccessType::AnyShaderWrite
            | AccessType::TransferWrite
            | AccessType::HostWrite
            | AccessType::ColorAttachmentReadWrite
            | AccessType::General
            | AccessType::AccelerationStructureBuildWrite
            | AccessType::AccelerationStructureBufferWrite
    )
}

} // verus!

verus! {

/// The Vulkan value of a layout.
pub open spec fn layout_value(layout: ImageLayout) -> i32 {
    match layout {
        ImageLayout::Undefined => vk_flags::LAYOUT_UNDEFINED,
        ImageLayout::General => vk_flags::LAYOUT_GENERAL,
        ImageLayout::ShaderReadOnlyOptimal => vk_flags::LAYOUT_SHADER_READ_ONLY_OPTIMAL,
        ImageLayout::DepthStencilReadOnlyOptimal => vk_flags::LAYOUT_DEPTH_STENCIL_READ_ONLY_OPTIMAL,
        ImageLayout::DepthStencilAttachmentOptimal =>
            vk_flags::LAYOUT_DEPTH_STENCIL_ATTACHMENT_OPTIMAL,
        ImageLayout::DepthAttachmentStencilReadOnlyOptimal =>
            vk_flags::LAYOUT_DEPTH_ATTACHMENT_STENCIL_READ_ONLY_OPTIMAL,
        ImageLayout::DepthReadOnlyStencilAttachmentOptimal =>
            vk_flags::LAYOUT_DEPTH_READ_ONLY_STENCIL_ATTACHMENT_OPTIMAL,
        ImageLayout::DepthAttachmentOptimal => vk_flags::LAYOUT_DEPTH_ATTACHMENT_OPTIMAL,
        ImageLayout::DepthReadOnlyOptimal => vk_flags::LAYOUT_DEPTH_READ_ONLY_OPTIMAL,
        ImageLayout::ColorAttachmentOptimal => vk_flags::LAYOUT_COLOR_ATTACHMENT_OPTIMAL,
        ImageLayout::TransferSrcOptimal => vk_flags::LAYOUT_TRANSFER_SRC_OPTIMAL,
        ImageLayout::TransferDstOptimal => vk_flags::LAYOUT_TRANSFER_DST_OPTIMAL,
        ImageLayout::PresentSrc => vk_flags::LAYOUT_PRESENT_SRC_KHR,
    }
}

/// The Vulkan aspect bit of an aspect.
pub open spec fn aspect_value(aspect: AspectMask) -> u32 {
    match aspect {
        AspectMask::Color => vk_flags::ASPECT_COLOR,
        AspectMask::Depth => vk_flags::ASPECT_DEPTH,
        AspectMask::Stencil => vk_flags::ASPECT_STENCIL,
        AspectMask::Metadata => vk_flags::ASPECT_METADATA,
    }
}

/// The Vulkan value of `layout`.
pub fn convert_layout(layout: ImageLayout) -> (r: i32)
    ensures
        r == layout_value(layout),
{
    match layout {
        ImageLayout::Undefined => vk_flags::LAYOUT_UNDEFINED,
        ImageLayout::General => vk_flags::LAYOUT_GENERAL,
        ImageLayout::ShaderReadOnlyOptimal => vk_flags::LAYOUT_SHADER_READ_ONLY_OPTIMAL,
        ImageLayout::DepthStencilReadOnlyOptimal => {
            vk_flags::LAYOUT_DEPTH_STENCIL_READ_ONLY_OPTIMAL
        },
        ImageLayout::DepthStencilAttachmentOptimal => {
            vk_flags::LAYOUT_DEPTH_STENCIL_ATTACHMENT_OPTIMAL
        },
        ImageLayout::DepthAttachmentStencilReadOnlyOptimal => {
            vk_flags::LAYOUT_DEPTH_ATTACHMENT_STENCIL_READ_ONLY_OPTIMAL
        },
        ImageLayout::DepthReadOnlyStencilAttachmentOptimal => {
            vk_flags::LAYOUT_DEPTH_READ_ONLY_STENCIL_ATTACHMENT_OPTIMAL
        },
        ImageLayout::DepthAttachmentOptimal => vk_flags::LAYOUT_DEPTH_ATTACHMENT_OPTIMAL,
        ImageLayout::DepthReadOnlyOptimal => vk_flags::LAYOUT_DEPTH_READ_ONLY_OPTIMAL,
        ImageLayout::ColorAttachmentOptimal => vk_flags::LAYOUT_COLOR_ATTACHMENT_OPTIMAL,
        ImageLayout::TransferSrcOptimal => vk_flags::LAYOUT_TRANSFER_SRC_OPTIMAL,
        ImageLayout::TransferDstOptimal => vk_flags::LAYOUT_TRANSFER_DST_OPTIMAL,
        ImageLayout::PresentSrc => vk_flags::LAYOUT_PRESENT_SRC_KHR,
    }
}

/// The Vulkan aspect bit of `aspect_mask`.
pub fn convert_aspect_mask(aspect_mask: AspectMask) -> (r: u32)
    ensures
        r == aspect_value(aspect_mask),
{
    match aspect_mask {
        AspectMask::Color => vk_flags::ASPECT_COLOR,
        AspectMask::Depth => vk_flags::ASPECT_DEPTH,
        AspectMask::Stencil => vk_flags::ASPECT_STENCIL,
        AspectMask::Metadata => vk_flags::ASPECT_METADATA,
    }
}

/// The whole image (every mip level and array layer) in one aspect.
pub fn make_subresource_range(aspect_mask: AspectMask) -> (r: ImageSubresourceRange)
    ensures
        r == (ImageSubresourceRange {
            aspect_mask: aspect_value(aspect_mask),
            base_mip_level: 0,
            level_count: vk_flags::REMAINING_MIP_LEVELS,
            base_array_layer: 0,
            layer_count: vk_flags::REMAINING_ARRAY_LAYERS,
        }),
{
    ImageSubresourceRange {
        aspect_mask: convert_aspect_mask(aspect_mask),
        base_mip_level: 0,
        level_count: vk_flags::REMAINING_MIP_LEVELS,
        base_array_layer: 0,
        layer_count: vk_flags::REMAINING_ARRAY_LAYERS,
    }
}

/// The union of the stages of a list of accesses.
pub open spec fn stage_union(s: Seq<AccessType>) -> u32
    decreases s.len(),
{
    if s.len() == 0 {
        0
    } else {
        stage_union(s.drop_last()) | stage_mask_of(s.last())
    }
}

/// The union of the memory accesses of a list of accesses.
pub open spec fn access_union(s: Seq<AccessType>) -> u32
    decreases s.len(),
{
    if s.len() == 0 {
        0
    } else {
        access_union(s.drop_last()) | access_mask_of(s.last())
    }
}

/// The union of the memory accesses of the writes in a list of accesses.
pub open spec fn write_access_union(s: Seq<AccessType>) -> u32
    decreases s.len(),
{
    if s.len() == 0 {
        0
    } else if is_write(s.last()) {
        write_access_union(s.drop_last()) | access_mask_of(s.last())
    } else {
        write_access_union(s.drop_last())
    }
}

/// The stages a barrier waits for: those of the previous accesses, or the top of the
/// pipe when they name none.
pub open spec fn barrier_src_stages(previous: Seq<AccessType>) -> u32 {
    if stage_union(previous) == 0 {
        vk_flags::STAGE_TOP_OF_PIPE
    } else {
        stage_union(previous)
    }
}

/// The stages a barrier blocks: those of the next accesses, or the bottom of the
/// pipe when they name none.
pub open spec fn barrier_dst_stages(next: Seq<AccessType>) -> u32 {
    if stage_union(next) == 0 {
        vk_flags::STAGE_BOTTOM_OF_PIPE
    } else {
        stage_union(next)
    }
}

/// Availability: the writes among the previous accesses.
pub open spec fn barrier_src_access(previous: Seq<AccessType>) -> u32 {
    write_access_union(previous)
}

/// Visibility: the next accesses, needed only when something was made available
/// (a read after read, or a write after read, needs no visibility operation).
pub open spec fn barrier_dst_access(previous: Seq<AccessType>, next: Seq<AccessType>) -> u32 {
    if write_access_union(previous) == 0 {
        0
    } else {
        access_union(next)
    }
}

/// The layout a barrier transitions from or to: the given one when the barrier lists
/// any access on that side, undefined otherwise.
pub open spec fn barrier_layout(accesses: Seq<AccessType>, layout: ImageLayout) -> i32 {
    if accesses.len() == 0 {
        vk_flags::LAYOUT_UNDEFINED
    } else {
        layout_value(layout)
    }
}

/// Translates an image barrier into the source stages, the destination stages and the
/// `VkImageMemoryBarrier` that record it on a queue of `universal_family`.
pub fn get_image_memory_barrier(universal_family: u32, barrier: &ImageBarrier) -> (r: (
    u32,
    u32,
    ImageMemoryBarrier,
))
    ensures
        r.0 == barrier_src_stages(barrier.previous_accesses@),
        r.1 == barrier_dst_stages(barrier.next_accesses@),
        r.2.src_access_mask == barrier_src_access(barrier.previous_accesses@),
        r.2.dst_access_mask == barrier_dst_access(
            barrier.previous_accesses@,
            barrier.next_accesses@,
        ),
        r.2.old_layout == barrier_layout(barrier.previous_accesses@, barrier.previous_layout),
        r.2.new_layout == barrier_layout(barrier.next_accesses@, barrier.next_layout),
        r.2.src_queue_family_index == universal_family,
        r.2.dst_queue_family_index == universal_family,
        r.2.image == barrier.image,
        r.2.subresource_range == (ImageSubresourceRange {
            aspect_mask: aspect_value(barrier.aspect_mask),
            base_mip_level: 0,
            level_count: vk_flags::REMAINING_MIP_LEVELS,
            base_array_layer: 0,
            layer_count: vk_flags::REMAINING_ARRAY_LAYERS,
        }),
{
    let previous = barrier.previous_accesses;
    let next = barrier.next_accesses;

    let mut src_stages: u32 = 0;
    let mut dst_stages: u32 = 0;
    let mut src_access_mask: u32 = 0;
    let mut dst_access_mask: u32 = 0;
    let mut old_layout: i32 = vk_flags::LAYOUT_UNDEFINED;
    let mut new_layout: i32 = vk_flags::LAYOUT_UNDEFINED;

    let n_prev = previous.len();
    let mut i: usize = 0;
    while i < n_prev
        invariant
            i <= n_prev,
            n_prev == previous@.len(),
            src_stages == stage_union(previous@.subrange(0, i as int)),
            src_access_mask == write_access_union(previous@.subrange(0, i as int)),
            old_layout == barrier_layout(previous@.subrange(0, i as int), barrier.previous_layout),
        decreases n_prev - i,
    {
        let previous_access = previous[i];
        let previous_info = get_access_info(previous_access);

        src_stages = src_stages | previous_info.stage_mask;

        // Add appropriate availability operations - for writes only.
        if is_write_access(previous_access) {
            src_access_mask = src_access_mask | previous_info.access_mask;
        }

        old_layout = convert_layout(barrier.previous_layout);
        proof {
            assert(previous@.subrange(0, i + 1).drop_last() =~= previous@.subrange(0, i as int));
        }
        i = i + 1;
    }
    proof {
        assert(previous@.subrange(0, n_prev as int) =~= previous@);
    }

    let n_next = next.len();
    let mut j: usize = 0;
    while j < n_next
        invariant
            j <= n_next,
            n_next == next@.len(),
            src_access_mask == write_access_union(previous@),
            dst_stages == stage_union(next@.subrange(0, j as int)),
            dst_access_mask == (if src_access_mask == 0 {
                0
            } else {
                access_union(next@.subrange(0, j as int))
            }),
            new_layout == barrier_layout(next@.subrange(0, j as int), barrier.next_layout),
        decreases n_next - j,
    {
        let next_access = next[j];
        let next_info = get_access_info(next_access);

        dst_stages = dst_stages | next_info.stage_mask;

        // Add visibility operations as necessary.
        // If the src access mask is empty, this is a WAR hazard (or for some reason a "RAR"),
        // so the dst access mask can be safely zeroed as these don't need visibility.
        if src_access_mask != 0 {
            dst_access_mask = dst_access_mask | next_info.access_mask;
        }

        new_layout = convert_layout(barrier.next_layout);
        proof {
            assert(next@.subrange(0, j + 1).drop_last() =~= next@.subrange(0, j as int));
        }
        j = j + 1;
    }
    proof {
        assert(next@.subrange(0, n_next as int) =~= next@);
    }

    // Ensure that the stage masks are valid if no stages were determined
    if src_stages == 0 {
        src_stages = vk_flags::STAGE_TOP_OF_PIPE;
    }
    if dst_stages == 0 {
        dst_stages = vk_flags::STAGE_BOTTOM_OF_PIPE;
    }

    let image_barrier = ImageMemoryBarrier {
        src_access_mask,
        dst_access_mask,
        old_layout,
        new_layout,
        src_queue_family_index: universal_family,
        dst_queue_family_index: universal_family,
        image: barrier.image,
        subresource_range: make_subresource_range(barrier.aspect_mask),
    };
    (src_stages, dst_stages, image_barrier)
}

} // verus!

verus! {

proof fn lemma_bits_or(a: u32, b: u32, c: u32)
    by (bit_vector)
    ensures
        (a | b) | c == a | (b | c),
        a | b == b | a,
        a | 0 == a,
        0u32 | a == a,
        a & (b | a) == a,
        a & b == a ==> a & (b | c) == a,
        a & b == a && a != 0 ==> b != 0,
        a & b != 0 ==> a != 0,
{
}

proof fn lemma_stage_union_concat(s: Seq<AccessType>, t: Seq<AccessType>)
    ensures
        stage_union(s + t) == stage_union(s) | stage_union(t),
    decreases t.len(),
{
    if t.len() == 0 {
        assert(s + t =~= s);
        lemma_bits_or(stage_union(s), 0, 0);
    } else {
        lemma_stage_union_concat(s, t.drop_last());
        assert((s + t).drop_last() =~= s + t.drop_last());
        lemma_bits_or(stage_union(s), stage_union(t.drop_last()), stage_mask_of(t.last()));
    }
}

proof fn lemma_access_union_concat(s: Seq<AccessType>, t: Seq<AccessType>)
    ensures
        access_union(s + t) == access_union(s) | access_union(t),
    decreases t.len(),
{
    if t.len() == 0 {
        assert(s + t =~= s);
        lemma_bits_or(access_union(s), 0, 0);
    } else {
        lemma_access_union_concat(s, t.drop_last());
        assert((s + t).drop_last() =~= s + t.drop_last());
        lemma_bits_or(access_union(s), access_union(t.drop_last()), access_mask_of(t.last()));
    }
}

proof fn lemma_write_access_union_concat(s: Seq<AccessType>, t: Seq<AccessType>)
    ensures
        write_access_union(s + t) == write_access_union(s) | write_access_union(t),
    decreases t.len(),
{
    if t.len() == 0 {
        assert(s + t =~= s);
        lemma_bits_or(write_access_union(s), 0, 0);
    } else {
        lemma_write_access_union_concat(s, t.drop_last());
        assert((s + t).drop_last() =~= s + t.drop_last());
        lemma_bits_or(
            write_access_union(s),
            write_access_union(t.drop_last()),
            access_mask_of(t.last()),
        );
    }
}

proof fn lemma_no_writes_no_write_access(s: Seq<AccessType>)
    requires
        forall|i: int| 0 <= i < s.len() ==> !is_write(#[trigger] s[i]),
    ensures
        write_access_union(s) == 0,
    decreases s.len(),
{
    if s.len() > 0 {
        lemma_no_writes_no_write_access(s.drop_last());
    }
}

proof fn lemma_access_union_contains(s: Seq<AccessType>, k: int)
    requires
        0 <= k < s.len(),
    ensures
        access_mask_of(s[k]) & access_union(s) == access_mask_of(s[k]),
    decreases s.len(),
{
    if k == s.len() - 1 {
        lemma_bits_or(access_mask_of(s[k]), access_union(s.drop_last()), 0);
    } else {
        lemma_access_union_contains(s.drop_last(), k);
        lemma_bits_or(
            access_mask_of(s[k]),
            access_union(s.drop_last()),
            access_mask_of(s.last()),
        );
    }
}

proof fn lemma_write_access_union_contains(s: Seq<AccessType>, k: int)
    requires
        0 <= k < s.len(),
        is_write(s[k]),
    ensures
        access_mask_of(s[k]) & write_access_union(s) == access_mask_of(s[k]),
    decreases s.len(),
{
    if k == s.len() - 1 {
        lemma_bits_or(access_mask_of(s[k]), write_access_union(s.drop_last()), 0);
    } else {
        lemma_write_access_union_contains(s.drop_last(), k);
        if is_write(s.last()) {
            lemma_bits_or(
                access_mask_of(s[k]),
                write_access_union(s.drop_last()),
                access_mask_of(s.last()),
            );
        }
    }
}

/// A barrier never waits on, nor blocks, an empty set of stages.
pub proof fn lemma_barrier_stages_never_empty(previous: Seq<AccessType>, next: Seq<AccessType>)
    ensures
        barrier_src_stages(previous) != 0,
        barrier_dst_stages(next) != 0,
{
}

/// When no previous access writes, the barrier is an execution dependency only: it
/// makes nothing available and nothing visible.
pub proof fn lemma_read_only_previous_needs_no_memory_dependency(
    previous: Seq<AccessType>,
    next: Seq<AccessType>,
)
    requires
        forall|i: int| 0 <= i < previous.len() ==> !is_write(#[trigger] previous[i]),
    ensures
        barrier_src_access(previous) == 0,
        barrier_dst_access(previous, next) == 0,
{
    lemma_no_writes_no_write_access(previous);
}

/// After a write, the barrier makes that write available and makes memory visible to
/// every next access.
pub proof fn lemma_write_is_made_visible_to_next_accesses(
    previous: Seq<AccessType>,
    next: Seq<AccessType>,
    w: int,
)
    requires
        0 <= w < previous.len(),
        is_write(previous[w]),
    ensures
        access_mask_of(previous[w]) & barrier_src_access(previous) == access_mask_of(previous[w]),
        barrier_src_access(previous) != 0,
        forall|j: int|
            0 <= j < next.len() ==> access_mask_of(#[trigger] next[j]) & barrier_dst_access(
                previous,
                next,
            ) == access_mask_of(next[j]),
{
    lemma_write_access_union_contains(previous, w);
    lemma_bits_or(access_mask_of(previous[w]), vk_flags::ACCESS_ALL_WRITES, 0);
    lemma_bits_or(access_mask_of(previous[w]), write_access_union(previous), 0);
    assert forall|j: int| 0 <= j < next.len() implies access_mask_of(#[trigger] next[j])
        & barrier_dst_access(previous, next) == access_mask_of(next[j]) by {
        lemma_access_union_contains(next, j);
    }
}

/// The order in which accesses are listed does not matter: listing two groups of
/// previous accesses, or of next accesses, the other way round gives the same barrier.
pub proof fn lemma_barrier_independent_of_access_order(
    a: Seq<AccessType>,
    b: Seq<AccessType>,
    next: Seq<AccessType>,
    c: Seq<AccessType>,
    d: Seq<AccessType>,
    previous: Seq<AccessType>,
)
    ensures
        barrier_src_stages(a + b) == barrier_src_stages(b + a),
        barrier_src_access(a + b) == barrier_src_access(b + a),
        barrier_dst_access(a + b, next) == barrier_dst_access(b + a, next),
        barrier_dst_stages(c + d) == barrier_dst_stages(d + c),
        barrier_dst_access(previous, c + d) == barrier_dst_access(previous, d + c),
{
    lemma_stage_union_concat(a, b);
    lemma_stage_union_concat(b, a);
    lemma_bits_or(stage_union(a), stage_union(b), 0);
    lemma_write_access_union_concat(a, b);
    lemma_write_access_union_concat(b, a);
    lemma_bits_or(write_access_union(a), write_access_union(b), 0);
    lemma_stage_union_concat(c, d);
    lemma_stage_union_concat(d, c);
    lemma_bits_or(stage_union(c), stage_union(d), 0);
    lemma_access_union_concat(c, d);
    lemma_access_union_concat(d, c);
    lemma_bits_or(access_union(c), access_union(d), 0);
}

} // verus!
