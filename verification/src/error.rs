//! The error type of the library.

use vstd::prelude::*;

verus! {

/// The number of a failed system call, as the kernel reports it.
#[derive(Clone, Copy, Debug, PartialEq, Eq)]
pub struct Errno(pub i32);

/// Why a POSIX, ioctl or file-descriptor operation failed.
#[derive(Debug, PartialEq, Eq)]
pub enum IoError {
    /// The kernel refused the call with this number.
    Os(i32),
    /// The call went through but what it gave back is unusable.
    Other(String),
}

/// Error type for the whole library. Every failure path funnels into it, so
/// that callers can convert it into their own error type while still being
/// able to match on categories.
#[derive(Debug, PartialEq, Eq)]
pub enum WayvekError {
    /// A Vulkan API call failed with this `VkResult`.
    Vulkan(i32),
    /// A POSIX / ioctl / file-descriptor operation failed.
    Io(IoError),
    /// The Vulkan loader could not be opened, for the reason given.
    LoadLibrary(String),
    /// No Vulkan physical device exposed the expected DRM render node.
    NoMatchingDevice { major: u32, minor: u32 },
    /// No device-local memory type is both allocation-capable and exportable.
    NoExportableMemoryType,
    /// No (format, modifier) pair is supported by both the compositor and the
    /// Vulkan device.
    NoNegotiatedFormat,
}

/// Convenience alias used throughout the library.
pub type Result<T> = core::result::Result<T, WayvekError>;

impl From<Errno> for WayvekError {
    fn from(err: Errno) -> (ret: Self) {
        WayvekError::Io(IoError::Os(err.0))
    }
}

impl vstd::std_specs::convert::FromSpecImpl<Errno> for WayvekError {
    open spec fn obeys_from_spec() -> bool {
        true
    }

    open spec fn from_spec(err: Errno) -> Self {
        WayvekError::Io(IoError::Os(err.0))
    }
}

/// The number of a refused call is kept as it is.
pub proof fn law_errno_is_kept(err: Errno, number: i32)
    ensures
        <WayvekError as vstd::std_specs::convert::FromSpec<Errno>>::from_spec(err)
            == WayvekError::Io(IoError::Os(number)) <==> err.0 == number,
{
}

} // verus!
