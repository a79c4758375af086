//! Resource lifecycle and frame execution for a small Vulkan renderer.
//!
//! The library decides; the program around it talks to the device. Every
//! GPU object is known here by its 64-bit handle, every description the
//! device needs is a plain record, and every number that is a float on the
//! device is carried as its 32 bits.

pub mod error;
pub mod teardown;
pub mod table;
pub mod device;
pub mod buffer;
pub mod mesh;
pub mod swapchain;
pub mod renderpass;
pub mod descriptors;
pub mod pipeline;
pub mod frame;
pub mod commands;
pub mod sync;
pub mod scene;
pub mod protocol;
pub mod engine;
pub mod window;
