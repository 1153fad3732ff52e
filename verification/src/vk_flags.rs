//! Raw Vulkan enumerant and flag values that the library computes with.
//! They are the values of the Vulkan registry (1.3); the runtime turns them into
//! `ash` types with `from_raw`.

use vstd::prelude::*;

verus! {

// VkPipelineStageFlagBits
pub const STAGE_TOP_OF_PIPE: u32 = 0x1;
pub const STAGE_DRAW_INDIRECT: u32 = 0x2;
pub const STAGE_VERTEX_INPUT: u32 = 0x4;
pub const STAGE_VERTEX_SHADER: u32 = 0x8;
pub const STAGE_TESSELLATION_CONTROL_SHADER: u32 = 0x10;
pub const STAGE_TESSELLATION_EVALUATION_SHADER: u32 = 0x20;
pub const STAGE_GEOMETRY_SHADER: u32 = 0x40;
pub const STAGE_FRAGMENT_SHADER: u32 = 0x80;
pub const STAGE_EARLY_FRAGMENT_TESTS: u32 = 0x100;
pub const STAGE_LATE_FRAGMENT_TESTS: u32 = 0x200;
pub const STAGE_COLOR_ATTACHMENT_OUTPUT: u32 = 0x400;
pub const STAGE_COMPUTE_SHADER: u32 = 0x800;
pub const STAGE_TRANSFER: u32 = 0x1000;
pub const STAGE_BOTTOM_OF_PIPE: u32 = 0x2000;
pub const STAGE_HOST: u32 = 0x4000;
pub const STAGE_ALL_GRAPHICS: u32 = 0x8000;
pub const STAGE_ALL_COMMANDS: u32 = 0x10000;
pub const STAGE_COMMAND_PREPROCESS_NV: u32 = 0x20000;
pub const STAGE_RAY_TRACING_SHADER_KHR: u32 = 0x200000;
pub const STAGE_ACCELERATION_STRUCTURE_BUILD_KHR: u32 = 0x2000000;

// VkAccessFlagBits
pub const ACCESS_INDIRECT_COMMAND_READ: u32 = 0x1;
pub const ACCESS_INDEX_READ: u32 = 0x2;
pub const ACCESS_VERTEX_ATTRIBUTE_READ: u32 = 0x4;
pub const ACCESS_UNIFORM_READ: u32 = 0x8;
pub const ACCESS_INPUT_ATTACHMENT_READ: u32 = 0x10;
pub const ACCESS_SHADER_READ: u32 = 0x20;
pub const ACCESS_SHADER_WRITE: u32 = 0x40;
pub const ACCESS_COLOR_ATTACHMENT_READ: u32 = 0x80;
pub const ACCESS_COLOR_ATTACHMENT_WRITE: u32 = 0x100;
pub const ACCESS_DEPTH_STENCIL_ATTACHMENT_READ: u32 = 0x200;
pub const ACCESS_DEPTH_STENCIL_ATTACHMENT_WRITE: u32 = 0x400;
pub const ACCESS_TRANSFER_READ: u32 = 0x800;
pub const ACCESS_TRANSFER_WRITE: u32 = 0x1000;
pub const ACCESS_HOST_READ: u32 = 0x2000;
pub const ACCESS_HOST_WRITE: u32 = 0x4000;
pub const ACCESS_MEMORY_READ: u32 = 0x8000;
pub const ACCESS_MEMORY_WRITE: u32 = 0x10000;
pub const ACCESS_COMMAND_PREPROCESS_READ_NV: u32 = 0x20000;
pub const ACCESS_COMMAND_PREPROCESS_WRITE_NV: u32 = 0x40000;
pub const ACCESS_ACCELERATION_STRUCTURE_READ_KHR: u32 = 0x200000;
pub const ACCESS_ACCELERATION_STRUCTURE_WRITE_KHR: u32 = 0x400000;

/// Every access bit that denotes a write.
pub const ACCESS_ALL_WRITES: u32 = 0x455540;

// VkImageLayout
pub const LAYOUT_UNDEFINED: i32 = 0;
pub const LAYOUT_GENERAL: i32 = 1;
pub const LAYOUT_COLOR_ATTACHMENT_OPTIMAL: i32 = 2;
pub const LAYOUT_DEPTH_STENCIL_ATTACHMENT_OPTIMAL: i32 = 3;
pub const LAYOUT_DEPTH_STENCIL_READ_ONLY_OPTIMAL: i32 = 4;
pub const LAYOUT_SHADER_READ_ONLY_OPTIMAL: i32 = 5;
pub const LAYOUT_TRANSFER_SRC_OPTIMAL: i32 = 6;
pub const LAYOUT_TRANSFER_DST_OPTIMAL: i32 = 7;
pub const LAYOUT_DEPTH_READ_ONLY_STENCIL_ATTACHMENT_OPTIMAL: i32 = 1000117000;
pub const LAYOUT_DEPTH_ATTACHMENT_STENCIL_READ_ONLY_OPTIMAL: i32 = 1000117001;
pub const LAYOUT_DEPTH_ATTACHMENT_OPTIMAL: i32 = 1000241000;
pub const LAYOUT_DEPTH_READ_ONLY_OPTIMAL: i32 = 1000241001;
pub const LAYOUT_PRESENT_SRC_KHR: i32 = 1000001002;

// VkImageAspectFlagBits
pub const ASPECT_COLOR: u32 = 0x1;
pub const ASPECT_DEPTH: u32 = 0x2;
pub const ASPECT_STENCIL: u32 = 0x4;
pub const ASPECT_METADATA: u32 = 0x8;

pub const REMAINING_MIP_LEVELS: u32 = 0xFFFF_FFFF;
pub const REMAINING_ARRAY_LAYERS: u32 = 0xFFFF_FFFF;

} // verus!
