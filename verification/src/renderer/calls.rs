//! The conversation with the Vulkan device while a frame is drawn.
//!
//! A [`Draw`] names the next call to make; what came back of it is handed to
//! [`Vulkan::step`](crate::renderer::vulkan::Vulkan::step), which moves the
//! draw on. Vulkan handles are plain 64-bit numbers here, zero being the null
//! handle, and file descriptors are plain numbers.

use vstd::prelude::*;

use crate::renderer::device::MemoryTypes;
use crate::renderer::error::{GpuStep, RenderError};
use crate::{DmaFrame, DmaPlane};

verus! {

/// The DRM format and modifier that buffers are created with.
#[derive(Clone, Copy, Debug, PartialEq, Eq)]
pub struct BufferFormat {
    pub fourcc: u32,
    /// The `VkFormat`.
    pub vk_format: i32,
    pub modifier: u64,
}

/// A frame's worth of GPU work: one command buffer (reused) and one fence.
#[derive(Clone, Copy, Debug, PartialEq, Eq)]
pub struct FrameData {
    pub command_buffer: u64,
    pub fence: u64,
}

/// One Vulkan image exported to the compositor as a DMA-BUF.
#[derive(Clone, Copy, Debug, PartialEq, Eq)]
pub struct DmaBuffer {
    pub image: u64,
    pub memory: u64,
    pub fd: i32,
    pub plane: DmaPlane,
}

/// A call that a draw needs to have made.
#[derive(Clone, Copy, Debug, PartialEq, Eq)]
pub enum GpuCall {
    /// Wait until the device is idle.
    WaitIdle,
    /// Free the memory, destroy the image and close the descriptor of each
    /// buffer that there is. Cannot fail.
    ReleaseBuffers { first: Option<DmaBuffer>, second: Option<DmaBuffer> },
    /// Create an exportable 2D transfer-destination image with this format and
    /// this one DRM modifier. Gives its handle.
    CreateImage { width: u32, height: u32, vk_format: i32, modifier: u64 },
    /// Query what memory the image needs and what the device has. Cannot fail.
    MemoryRequirements { image: u64 },
    /// Allocate exportable memory dedicated to the image. Gives its handle.
    AllocateMemory { image: u64, size: u64, memory_type_index: u32 },
    /// Bind the memory to the image, at its start.
    BindMemory { image: u64, memory: u64 },
    /// Export the memory as a DMA-BUF. Gives its descriptor.
    ExportMemory { memory: u64 },
    /// Query the layout of memory plane 0 of the image. Cannot fail.
    PlaneLayout { image: u64 },
    /// Create a pool of resettable command buffers. Gives its handle.
    CreateCommandPool { queue_family: u32 },
    /// Allocate one primary command buffer. Gives its handle.
    AllocateCommandBuffer { command_pool: u64 },
    /// Create a signalled fence that exports as a sync-file. Gives its handle.
    CreateFence,
    /// Begin the command buffer.
    BeginCommands { command_buffer: u64 },
    /// Let the caller record its commands. Cannot fail.
    Record { slot: usize, command_buffer: u64, image: u64 },
    /// End the command buffer.
    EndCommands { command_buffer: u64 },
    /// Reset the fence.
    ResetFence { fence: u64 },
    /// Submit the command buffer, to signal the fence.
    Submit { command_buffer: u64, fence: u64 },
    /// Export the fence as a sync-file. Gives its descriptor.
    ExportFence { fence: u64 },
    /// Duplicate the descriptor. Gives the new one.
    DuplicateFd { fd: i32 },
    /// Close the descriptor. Cannot fail.
    CloseFd { fd: i32 },
}

/// What a call that succeeded gives back.
#[derive(Clone, Copy, Debug, PartialEq, Eq)]
pub enum GpuReply {
    Done,
    Handle(u64),
    Fd(i32),
    Requirements { size: u64, memory_type_bits: u32, types: MemoryTypes },
    Layout { offset: u64, row_pitch: u64 },
}

/// Why a call failed: its `VkResult` or error number, and a description.
#[derive(Debug, PartialEq, Eq)]
pub struct CallFailure {
    pub code: i32,
    pub cause: String,
}

/// What came back of a call.
pub type CallResult = core::result::Result<GpuReply, CallFailure>;

/// The calls that render into a finished buffer, in their order.
#[derive(Clone, Copy, Debug, PartialEq, Eq)]
pub enum RenderStep {
    Begin,
    Record,
    End,
    Reset,
    Submit,
    Export,
}

/// How far a draw has come: the call that is next, and what is known by then.
#[derive(Debug, PartialEq, Eq)]
pub enum Stage {
    /// The size has changed: wait before the buffers of the old size go.
    Resize,
    /// Release the buffers of the old size.
    Release { first: Option<DmaBuffer>, second: Option<DmaBuffer> },
    /// Create the buffer of the slot, piece by piece.
    Image { format: BufferFormat },
    Requirements { format: BufferFormat, image: u64 },
    Allocate { format: BufferFormat, image: u64, size: u64, memory_type_index: u32 },
    Bind { format: BufferFormat, image: u64, memory: u64 },
    ExportMemory { format: BufferFormat, image: u64, memory: u64 },
    Layout { format: BufferFormat, image: u64, memory: u64, fd: i32 },
    /// Create the command buffer and the fence, on first use.
    Pool { format: BufferFormat, buffer: DmaBuffer, queue_family: u32 },
    Commands { format: BufferFormat, buffer: DmaBuffer, command_pool: u64 },
    Fence { format: BufferFormat, buffer: DmaBuffer, command_buffer: u64 },
    /// Render into the buffer of the slot.
    Render { format: BufferFormat, buffer: DmaBuffer, frame: FrameData, step: RenderStep },
    /// Duplicate the descriptor of the buffer for the compositor.
    Duplicate { format: BufferFormat, buffer: DmaBuffer, sync_fd: i32 },
    /// The frame is drawn.
    Finished { format: BufferFormat, buffer: DmaBuffer, fd: i32, sync_fd: i32 },
    /// A call has failed and the descriptor in hand is to be closed.
    Abandon { fd: i32, error: RenderError },
    /// The draw has failed.
    Failed { error: RenderError },
}

/// A frame being drawn into the buffer of `slot`.
#[derive(Debug, PartialEq, Eq)]
pub struct Draw {
    pub slot: usize,
    pub width: u32,
    pub height: u32,
    pub stage: Stage,
}

impl RenderStep {
    /// The step after this one; after the last, none.
    pub open spec fn following(self) -> Option<RenderStep> {
        match self {
            RenderStep::Begin => Some(RenderStep::Record),
            RenderStep::Record => Some(RenderStep::End),
            RenderStep::End => Some(RenderStep::Reset),
            RenderStep::Reset => Some(RenderStep::Submit),
            RenderStep::Submit => Some(RenderStep::Export),
            RenderStep::Export => None,
        }
    }

    /// The step after this one; after the last, none.
    pub fn next(&self) -> (step: Option<RenderStep>)
        ensures
            step == self.following(),
    {
        match self {
            RenderStep::Begin => Some(RenderStep::Record),
            RenderStep::Record => Some(RenderStep::End),
            RenderStep::End => Some(RenderStep::Reset),
            RenderStep::Reset => Some(RenderStep::Submit),
            RenderStep::Submit => Some(RenderStep::Export),
            RenderStep::Export => None,
        }
    }
}

impl GpuCall {
    /// The step that a failure of the call is reported under; `None` for a call
    /// that cannot fail.
    pub open spec fn step(self) -> Option<GpuStep> {
        match self {
            GpuCall::WaitIdle => Some(GpuStep::WaitIdle),
            GpuCall::CreateImage { .. } => Some(GpuStep::CreateImage),
            GpuCall::AllocateMemory { .. } => Some(GpuStep::AllocateMemory),
            GpuCall::BindMemory { .. } => Some(GpuStep::BindMemory),
            GpuCall::ExportMemory { .. } => Some(GpuStep::ExportMemory),
            GpuCall::CreateCommandPool { .. } => Some(GpuStep::CreateCommandPool),
            GpuCall::AllocateCommandBuffer { .. } => Some(GpuStep::AllocateCommandBuffer),
            GpuCall::CreateFence => Some(GpuStep::CreateFence),
            GpuCall::BeginCommands { .. } => Some(GpuStep::BeginCommands),
            GpuCall::EndCommands { .. } => Some(GpuStep::EndCommands),
            GpuCall::ResetFence { .. } => Some(GpuStep::ResetFence),
            GpuCall::Submit { .. } => Some(GpuStep::Submit),
            GpuCall::ExportFence { .. } => Some(GpuStep::ExportFence),
            GpuCall::DuplicateFd { .. } => Some(GpuStep::DuplicateFd),
            GpuCall::ReleaseBuffers { .. } => None,
            GpuCall::MemoryRequirements { .. } => None,
            GpuCall::PlaneLayout { .. } => None,
            GpuCall::Record { .. } => None,
            GpuCall::CloseFd { .. } => None,
        }
    }

    /// The step that a failure of the call is reported under.
    pub fn failing_step(&self) -> (step: Option<GpuStep>)
        ensures
            step == self.step(),
    {
        match self {
            GpuCall::WaitIdle => Some(GpuStep::WaitIdle),
            GpuCall::CreateImage { .. } => Some(GpuStep::CreateImage),
            GpuCall::AllocateMemory { .. } => Some(GpuStep::AllocateMemory),
            GpuCall::BindMemory { .. } => Some(GpuStep::BindMemory),
            GpuCall::ExportMemory { .. } => Some(GpuStep::ExportMemory),
            GpuCall::CreateCommandPool { .. } => Some(GpuStep::CreateCommandPool),
            GpuCall::AllocateCommandBuffer { .. } => Some(GpuStep::AllocateCommandBuffer),
            GpuCall::CreateFence => Some(GpuStep::CreateFence),
            GpuCall::BeginCommands { .. } => Some(GpuStep::BeginCommands),
            GpuCall::EndCommands { .. } => Some(GpuStep::EndCommands),
            GpuCall::ResetFence { .. } => Some(GpuStep::ResetFence),
            GpuCall::Submit { .. } => Some(GpuStep::Submit),
            GpuCall::ExportFence { .. } => Some(GpuStep::ExportFence),
            GpuCall::DuplicateFd { .. } => Some(GpuStep::DuplicateFd),
            GpuCall::ReleaseBuffers { .. } => None,
            GpuCall::MemoryRequirements { .. } => None,
            GpuCall::PlaneLayout { .. } => None,
            GpuCall::Record { .. } => None,
            GpuCall::CloseFd { .. } => None,
        }
    }

    /// `reply` is of the kind that the call gives back.
    pub open spec fn gives(self, reply: GpuReply) -> bool {
        match self {
            GpuCall::CreateImage { .. } => reply is Handle,
            GpuCall::AllocateMemory { .. } => reply is Handle,
            GpuCall::CreateCommandPool { .. } => reply is Handle,
            GpuCall::AllocateCommandBuffer { .. } => reply is Handle,
            GpuCall::CreateFence => reply is Handle,
            GpuCall::ExportMemory { .. } => reply is Fd,
            GpuCall::ExportFence { .. } => reply is Fd,
            GpuCall::DuplicateFd { .. } => reply is Fd,
            GpuCall::MemoryRequirements { .. } => reply is Requirements,
            GpuCall::PlaneLayout { .. } => reply is Layout,
            _ => reply is Done,
        }
    }

    /// `result` can come back of the call.
    pub open spec fn can_give(self, result: CallResult) -> bool {
        match result {
            Ok(reply) => self.gives(reply),
            Err(_) => self.step() is Some,
        }
    }
}

impl Draw {
    /// The call to make next; `None` once the draw has finished or failed.
    pub open spec fn wanted(self) -> Option<GpuCall> {
        match self.stage {
            Stage::Resize => Some(GpuCall::WaitIdle),
            Stage::Release { first, second } => Some(GpuCall::ReleaseBuffers { first, second }),
            Stage::Image { format } => Some(
                GpuCall::CreateImage {
                    width: self.width,
                    height: self.height,
                    vk_format: format.vk_format,
                    modifier: format.modifier,
                },
            ),
            Stage::Requirements { format: _, image } => Some(GpuCall::MemoryRequirements { image }),
            Stage::Allocate { format: _, image, size, memory_type_index } => Some(
                GpuCall::AllocateMemory { image, size, memory_type_index },
            ),
            Stage::Bind { format: _, image, memory } => Some(GpuCall::BindMemory { image, memory }),
            Stage::ExportMemory { format: _, image: _, memory } => Some(
                GpuCall::ExportMemory { memory },
            ),
            Stage::Layout { format: _, image, memory: _, fd: _ } => Some(
                GpuCall::PlaneLayout { image },
            ),
            Stage::Pool { format: _, buffer: _, queue_family } => Some(
                GpuCall::CreateCommandPool { queue_family },
            ),
            Stage::Commands { format: _, buffer: _, command_pool } => Some(
                GpuCall::AllocateCommandBuffer { command_pool },
            ),
            Stage::Fence { .. } => Some(GpuCall::CreateFence),
            Stage::Render { format: _, buffer, frame, step } => Some(
                match step {
                    RenderStep::Begin => GpuCall::BeginCommands {
                        command_buffer: frame.command_buffer,
                    },
                    RenderStep::Record => GpuCall::Record {
                        slot: self.slot,
                        command_buffer: frame.command_buffer,
                        image: buffer.image,
                    },
                    RenderStep::End => GpuCall::EndCommands {
                        command_buffer: frame.command_buffer,
                    },
                    RenderStep::Reset => GpuCall::ResetFence { fence: frame.fence },
                    RenderStep::Submit => GpuCall::Submit {
                        command_buffer: frame.command_buffer,
                        fence: frame.fence,
                    },
                    RenderStep::Export => GpuCall::ExportFence { fence: frame.fence },
                },
            ),
            Stage::Duplicate { format: _, buffer, sync_fd: _ } => Some(
                GpuCall::DuplicateFd { fd: buffer.fd },
            ),
            Stage::Abandon { fd, error: _ } => Some(GpuCall::CloseFd { fd }),
            Stage::Finished { .. } => None,
            Stage::Failed { .. } => None,
        }
    }

    /// The call to make next; `None` once the draw has finished or failed.
    pub fn call(&self) -> (call: Option<GpuCall>)
        ensures
            call == self.wanted(),
    {
        match &self.stage {
            Stage::Resize => Some(GpuCall::WaitIdle),
            Stage::Release { first, second } => Some(
                GpuCall::ReleaseBuffers { first: *first, second: *second },
            ),
            Stage::Image { format } => Some(
                GpuCall::CreateImage {
                    width: self.width,
                    height: self.height,
                    vk_format: format.vk_format,
                    modifier: format.modifier,
                },
            ),
            Stage::Requirements { format: _, image } => Some(
                GpuCall::MemoryRequirements { image: *image },
            ),
            Stage::Allocate { format: _, image, size, memory_type_index } => Some(
                GpuCall::AllocateMemory {
                    image: *image,
                    size: *size,
                    memory_type_index: *memory_type_index,
                },
            ),
            Stage::Bind { format: _, image, memory } => Some(
                GpuCall::BindMemory { image: *image, memory: *memory },
            ),
            Stage::ExportMemory { format: _, image: _, memory } => Some(
                GpuCall::ExportMemory { memory: *memory },
            ),
            Stage::Layout { format: _, image, memory: _, fd: _ } => Some(
                GpuCall::PlaneLayout { image: *image },
            ),
            Stage::Pool { format: _, buffer: _, queue_family } => Some(
                GpuCall::CreateCommandPool { queue_family: *queue_family },
            ),
            Stage::Commands { format: _, buffer: _, command_pool } => Some(
                GpuCall::AllocateCommandBuffer { command_pool: *command_pool },
            ),
            Stage::Fence { .. } => Some(GpuCall::CreateFence),
            Stage::Render { format: _, buffer, frame, step } => Some(
                match step {
                    RenderStep::Begin => GpuCall::BeginCommands {
                        command_buffer: frame.command_buffer,
                    },
                    RenderStep::Record => GpuCall::Record {
                        slot: self.slot,
                        command_buffer: frame.command_buffer,
                        image: buffer.image,
                    },
                    RenderStep::End => GpuCall::EndCommands {
                        command_buffer: frame.command_buffer,
                    },
                    RenderStep::Reset => GpuCall::ResetFence { fence: frame.fence },
                    RenderStep::Submit => GpuCall::Submit {
                        command_buffer: frame.command_buffer,
                        fence: frame.fence,
                    },
                    RenderStep::Export => GpuCall::ExportFence { fence: frame.fence },
                },
            ),
            Stage::Duplicate { format: _, buffer, sync_fd: _ } => Some(
                GpuCall::DuplicateFd { fd: buffer.fd },
            ),
            Stage::Abandon { fd, error: _ } => Some(GpuCall::CloseFd { fd: *fd }),
            Stage::Finished { .. } => None,
            Stage::Failed { .. } => None,
        }
    }

    /// The result of a draw that needs no more calls: the frame and the
    /// sync-file descriptor of its completion fence, or why there is none. A
    /// draw that is still under way is given back.
    pub fn finish(self) -> (res: core::result::Result<
        core::result::Result<(DmaFrame, i32), RenderError>,
        Draw,
    >)
        ensures
            match self.stage {
                Stage::Finished { format, buffer, fd, sync_fd } => {
                    &&& res matches Ok(Ok((frame, sync)))
                    &&& sync == sync_fd
                    &&& frame.fd == fd
                    &&& frame.width == self.width
                    &&& frame.height == self.height
                    &&& frame.format == format.fourcc
                    &&& frame.modifier == format.modifier
                    &&& frame.planes@ == seq![buffer.plane]
                },
                Stage::Failed { error } => res matches Ok(Err(e)) && e == error,
                _ => res matches Err(draw) && draw == self,
            },
    {
        match self.stage {
            Stage::Finished { format, buffer, fd, sync_fd } => {
                let mut planes: Vec<DmaPlane> = Vec::new();
                planes.push(buffer.plane);
                Ok(
                    Ok(
                        (
                            DmaFrame {
                                fd,
                                width: self.width,
                                height: self.height,
                                format: format.fourcc,
                                modifier: format.modifier,
                                planes,
                            },
                            sync_fd,
                        ),
                    ),
                )
            },
            Stage::Failed { error } => Ok(Err(error)),
            stage => Err(
                Draw { slot: self.slot, width: self.width, height: self.height, stage },
            ),
        }
    }
}

} // verus!
