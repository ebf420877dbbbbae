//! The sides that frames are presented to.

pub mod wayland;
