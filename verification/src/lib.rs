//! Verified core of the lantir renderer: the decisions and the data layouts that the
//! Vulkan runtime executes.

pub mod vk_flags;
pub mod barriers;
pub mod sbt;
pub mod brdf;
pub mod image;
pub mod cmgen;
pub mod frames;
pub mod resources;
pub mod passes;
pub mod device;
pub mod config;
pub mod cmgen_files;
pub mod gltf_scene;
pub mod frame_graph;
