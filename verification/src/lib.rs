//! Drawing into DMA-BUFs with Vulkan and presenting them over Wayland with
//! explicit synchronization: the decisions, formats and state machines.

use vstd::prelude::*;

pub mod backend;
pub mod bytes;
pub mod drm;
pub mod error;
pub mod fourcc;
pub mod negotiation;
pub mod renderer;
pub mod swapchain;
pub mod text;

pub use error::{Result, WayvekError};
pub use negotiation::negotiate;

verus! {

/// DRM_FORMAT_MODIFIER_INVALID sentinel used in format negotiation:
/// the low 56 bits set.
pub const DRM_FORMAT_MODIFIER_INVALID: u64 = 0x00ff_ffff_ffff_ffff;

/// Per-plane layout (offset + stride) of an exported DMA-BUF, as reported
/// by vkGetImageSubresourceLayout.
#[derive(Clone, Copy, Debug, PartialEq, Eq)]
pub struct DmaPlane {
    pub offset: u64,
    pub stride: u64,
}

/// A frame produced by the renderer, expressed entirely in Linux kernel
/// terms: a DMA-BUF file descriptor, dimensions, DRM format/modifier, and
/// per-plane layout. This is the contract between the renderer and the
/// Wayland backend: no Vulkan or Wayland types cross this boundary.
///
/// The descriptor is a plain number here; whoever holds the frame owns it.
#[derive(Debug, PartialEq, Eq)]
pub struct DmaFrame {
    pub fd: i32,
    pub width: u32,
    pub height: u32,
    /// DRM Fourcc code (e.g. DRM_FORMAT_XRGB8888).
    pub format: u32,
    /// DRM format modifier (e.g. linear, Intel TILE_X, etc.).
    pub modifier: u64,
    pub planes: Vec<DmaPlane>,
}

/// Explicit synchronization information for a single frame. The Wayland
/// backend applies these timeline points via wp_linux_drm_syncobj_surface_v1
/// at surface commit time.
///
/// The DRM syncobj timeline itself is a [`crate::drm::DrmSyncobj`] and is
/// imported into the compositor once at startup via
/// `wp_linux_drm_syncobj_manager_v1.import_timeline`. Thus only the
/// acquire/release points travel per-frame.
#[derive(Clone, Copy, Debug, PartialEq, Eq)]
pub struct ExplicitSync {
    /// Point the compositor waits on before sampling the buffer.
    pub acquire_point: u64,
    /// Point the compositor signals when it is done with the buffer.
    pub release_point: u64,
}

impl ExplicitSync {
    /// The points of a frame: it is released at the point right after the one
    /// at which it is acquired.
    pub fn from_acquire(acquire_point: u64) -> (sync: Self)
        requires
            acquire_point < u64::MAX,
        ensures
            sync.acquire_point == acquire_point,
            sync.release_point == acquire_point + 1,
    {
        ExplicitSync { acquire_point, release_point: acquire_point + 1 }
    }
}

} // verus!
