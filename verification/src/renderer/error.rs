//! What can go wrong while rendering.

use vstd::prelude::*;

use crate::error::{IoError, WayvekError};
use crate::text::{append_decimal, decimal, law_decimal_reads_back, reads_as};

verus! {

/// The fallible calls of the renderer.
#[derive(Clone, Copy, Debug, PartialEq, Eq)]
pub enum GpuStep {
    CreateInstance,
    EnumerateDevices,
    CreateDevice,
    WaitIdle,
    CreateImage,
    AllocateMemory,
    BindMemory,
    ExportMemory,
    CreateCommandPool,
    AllocateCommandBuffer,
    CreateFence,
    BeginCommands,
    EndCommands,
    ResetFence,
    Submit,
    ExportFence,
    DuplicateFd,
}

impl GpuStep {
    /// What the step is called in messages.
    pub open spec fn label_text(self) -> Seq<char> {
        match self {
            GpuStep::CreateInstance => "create instance"@,
            GpuStep::EnumerateDevices => "enumerate physical devices"@,
            GpuStep::CreateDevice => "create device"@,
            GpuStep::WaitIdle => "wait idle on resize"@,
            GpuStep::CreateImage => "create drm image"@,
            GpuStep::AllocateMemory => "allocate external memory"@,
            GpuStep::BindMemory => "bind image memory"@,
            GpuStep::ExportMemory => "export dmabuf fd"@,
            GpuStep::CreateCommandPool => "create command pool"@,
            GpuStep::AllocateCommandBuffer => "allocate command buffer"@,
            GpuStep::CreateFence => "create frame fence"@,
            GpuStep::BeginCommands => "begin command buffer"@,
            GpuStep::EndCommands => "end command buffer"@,
            GpuStep::ResetFence => "reset fence"@,
            GpuStep::Submit => "queue submit2"@,
            GpuStep::ExportFence => "export fence fd"@,
            GpuStep::DuplicateFd => "dup dmabuf fd"@,
        }
    }

    /// What the step is called in messages.
    pub fn label(&self) -> (label: &'static str)
        ensures
            label@ == self.label_text(),
    {
        match self {
            GpuStep::CreateInstance => "create instance",
            GpuStep::EnumerateDevices => "enumerate physical devices",
            GpuStep::CreateDevice => "create device",
            GpuStep::WaitIdle => "wait idle on resize",
            GpuStep::CreateImage => "create drm image",
            GpuStep::AllocateMemory => "allocate external memory",
            GpuStep::BindMemory => "bind image memory",
            GpuStep::ExportMemory => "export dmabuf fd",
            GpuStep::CreateCommandPool => "create command pool",
            GpuStep::AllocateCommandBuffer => "allocate command buffer",
            GpuStep::CreateFence => "create frame fence",
            GpuStep::BeginCommands => "begin command buffer",
            GpuStep::EndCommands => "end command buffer",
            GpuStep::ResetFence => "reset fence",
            GpuStep::Submit => "queue submit2",
            GpuStep::ExportFence => "export fence fd",
            GpuStep::DuplicateFd => "dup dmabuf fd",
        }
    }
}

/// Why the renderer could not be set up or could not draw.
#[derive(Debug, PartialEq, Eq)]
pub enum RenderError {
    /// The Vulkan loader could not be opened, for the reason given.
    Load(String),
    /// A call failed. `code` is the `VkResult`, or the error number of the
    /// system for [`GpuStep::DuplicateFd`]; `cause` is its description.
    Call { step: GpuStep, code: i32, cause: String },
    /// No physical device drives the render node with these numbers.
    NoMatchingDevice { major: u32, minor: u32 },
    /// No buffer format has been configured.
    NoFormat,
    /// No memory type fits the image.
    NoMemoryType,
}

impl RenderError {
    /// The error in words.
    pub open spec fn message_text(self) -> Seq<char> {
        match self {
            RenderError::Load(cause) => cause@,
            RenderError::Call { step, code: _, cause } => step.label_text() + ": "@ + cause@,
            RenderError::NoMatchingDevice { major, minor } => "no Vulkan device matched main DRM "@
                + decimal(major as nat) + ":"@ + decimal(minor as nat),
            RenderError::NoFormat => "no DRM format"@,
            RenderError::NoMemoryType => "no exportable device-local memory type"@,
        }
    }

    /// The error in words.
    pub fn message(&self) -> (text: String)
        ensures
            text@ == self.message_text(),
    {
        match self {
            RenderError::Load(cause) => cause.clone(),
            RenderError::Call { step, code: _, cause } => {
                let mut text = step.label().to_owned();
                text.append(": ");
                text.append(cause.as_str());
                text
            },
            RenderError::NoMatchingDevice { major, minor } => {
                let mut text = "no Vulkan device matched main DRM ".to_owned();
                append_decimal(&mut text, *major);
                text.append(":");
                append_decimal(&mut text, *minor);
                text
            },
            RenderError::NoFormat => "no DRM format".to_owned(),
            RenderError::NoMemoryType => "no exportable device-local memory type".to_owned(),
        }
    }
}

impl From<RenderError> for WayvekError {
    fn from(err: RenderError) -> (ret: Self) {
        match err {
            RenderError::Load(cause) => WayvekError::LoadLibrary(cause),
            RenderError::Call { step, code, cause: _ } => match step {
                GpuStep::DuplicateFd => WayvekError::Io(IoError::Os(code)),
                _ => WayvekError::Vulkan(code),
            },
            RenderError::NoMatchingDevice { major, minor } => WayvekError::NoMatchingDevice {
                major,
                minor,
            },
            RenderError::NoFormat => WayvekError::NoNegotiatedFormat,
            RenderError::NoMemoryType => WayvekError::NoExportableMemoryType,
        }
    }
}

impl vstd::std_specs::convert::FromSpecImpl<RenderError> for WayvekError {
    open spec fn obeys_from_spec() -> bool {
        true
    }

    open spec fn from_spec(err: RenderError) -> Self {
        match err {
            RenderError::Load(cause) => WayvekError::LoadLibrary(cause),
            RenderError::Call { step, code, cause: _ } => if step is DuplicateFd {
                WayvekError::Io(IoError::Os(code))
            } else {
                WayvekError::Vulkan(code)
            },
            RenderError::NoMatchingDevice { major, minor } => WayvekError::NoMatchingDevice {
                major,
                minor,
            },
            RenderError::NoFormat => WayvekError::NoNegotiatedFormat,
            RenderError::NoMemoryType => WayvekError::NoExportableMemoryType,
        }
    }
}

/// Every error is said in its own words: a failed call by what it was for and its
/// cause, a missing device by its numbers.
pub proof fn law_messages(cause: String, code: i32, major: u32, minor: u32)
    ensures
        (RenderError::Load(cause)).message_text() == cause@,
        (RenderError::Call { step: GpuStep::CreateInstance, code, cause }).message_text()
            == "create instance"@ + ": "@ + cause@,
        (RenderError::Call { step: GpuStep::EnumerateDevices, code, cause }).message_text()
            == "enumerate physical devices"@ + ": "@ + cause@,
        (RenderError::Call { step: GpuStep::CreateDevice, code, cause }).message_text()
            == "create device"@ + ": "@ + cause@,
        exists|a: Seq<char>, b: Seq<char>|
            {
                &&& (RenderError::NoMatchingDevice { major, minor }).message_text()
                    == "no Vulkan device matched main DRM "@ + a + ":"@ + b
                &&& #[trigger] reads_as(a) == major
                &&& #[trigger] reads_as(b) == minor
            },
        RenderError::NoFormat.message_text() == "no DRM format"@,
        RenderError::NoMemoryType.message_text() == "no exportable device-local memory type"@,
{
    law_decimal_reads_back(major as nat);
    law_decimal_reads_back(minor as nat);
    assert(reads_as(decimal(major as nat)) == major);
    assert(reads_as(decimal(minor as nat)) == minor);
}

/// Every error of the renderer becomes the library's of the same category, with its
/// number or text kept: a failed descriptor operation is an I/O error, any other
/// failed call is Vulkan's.
pub proof fn law_errors_keep_their_category(
    step: GpuStep,
    code: i32,
    cause: String,
    major: u32,
    minor: u32,
)
    ensures
        ({
            let becomes = |e: RenderError|
                <WayvekError as vstd::std_specs::convert::FromSpec<RenderError>>::from_spec(e);
            &&& becomes(RenderError::Load(cause)) == WayvekError::LoadLibrary(cause)
            &&& becomes(RenderError::Call { step: GpuStep::DuplicateFd, code, cause })
                == WayvekError::Io(IoError::Os(code))
            &&& step != GpuStep::DuplicateFd ==> becomes(RenderError::Call { step, code, cause })
                == WayvekError::Vulkan(code)
            &&& becomes(RenderError::NoMatchingDevice { major, minor })
                == WayvekError::NoMatchingDevice { major, minor }
            &&& becomes(RenderError::NoFormat) == WayvekError::NoNegotiatedFormat
            &&& becomes(RenderError::NoMemoryType) == WayvekError::NoExportableMemoryType
        }),
{
}

} // verus!
