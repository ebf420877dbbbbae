//! The Vulkan side: choosing a device and driving it frame by frame.

pub mod calls;
pub mod device;
pub mod error;
pub mod laws;
pub mod setup;
pub mod vulkan;
