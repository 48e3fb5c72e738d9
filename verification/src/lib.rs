//! The decision-making core of a Vulkan rendering engine: configuration,
//! device and swapchain selection, memory-type and format choice, uniform
//! buffer layout, validation-message parsing, keyboard state, named
//! resources and frame timing.
use vstd::prelude::*;

pub mod text;
pub mod validation;
pub mod messenger;
pub mod config;
pub mod memory;
pub mod buffers;
pub mod descriptors;
pub mod device;
pub mod swapchain;
pub mod input;
pub mod resources;
pub mod time;
pub mod game;
pub mod pipeline;
pub mod shaders;
pub mod events;
pub mod schedule;
pub mod render;
pub mod mesh;
pub mod handles;
pub mod cstring;

verus! {

} // verus!
