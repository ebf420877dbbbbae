//! The renderer's state: which format buffers have, which of them exist and
//! how a frame is drawn into one.

use vstd::prelude::*;

use crate::fourcc::{
    drm_fourcc_code, recognize, DRM_FORMAT_ABGR8888, DRM_FORMAT_ARGB8888, DRM_FORMAT_NV12,
    DRM_FORMAT_RGB565, DRM_FORMAT_XBGR8888, DRM_FORMAT_XRGB8888,
};
use crate::renderer::calls::{
    BufferFormat, CallFailure, CallResult, DmaBuffer, Draw, FrameData, GpuReply, RenderStep, Stage,
};
use crate::renderer::device::{exportable_memory_type, pick_exportable_memory_type};
use crate::renderer::error::RenderError;
use crate::DmaPlane;

verus! {

/// VK_FORMAT_UNDEFINED.
pub const VK_FORMAT_UNDEFINED: i32 = 0;

/// VK_FORMAT_R5G6B5_UNORM_PACK16.
pub const VK_FORMAT_R5G6B5_UNORM_PACK16: i32 = 4;

/// VK_FORMAT_R8G8B8A8_UNORM.
pub const VK_FORMAT_R8G8B8A8_UNORM: i32 = 37;

/// VK_FORMAT_B8G8R8A8_UNORM.
pub const VK_FORMAT_B8G8R8A8_UNORM: i32 = 44;

/// VK_FORMAT_G8_B8R8_2PLANE_420_UNORM.
pub const VK_FORMAT_G8_B8R8_2PLANE_420_UNORM: i32 = 1000156003;

/// The `VkFormat` with the memory layout of a DRM format.
pub open spec fn vk_format_of(fourcc: u32) -> i32 {
    if fourcc == DRM_FORMAT_XRGB8888 || fourcc == DRM_FORMAT_ARGB8888 {
        VK_FORMAT_B8G8R8A8_UNORM
    } else if fourcc == DRM_FORMAT_XBGR8888 || fourcc == DRM_FORMAT_ABGR8888 {
        VK_FORMAT_R8G8B8A8_UNORM
    } else if fourcc == DRM_FORMAT_RGB565 {
        VK_FORMAT_R5G6B5_UNORM_PACK16
    } else if fourcc == DRM_FORMAT_NV12 {
        VK_FORMAT_G8_B8R8_2PLANE_420_UNORM
    } else {
        VK_FORMAT_UNDEFINED
    }
}

/// The `VkFormat` with the memory layout of a DRM format, by its code;
/// [`VK_FORMAT_UNDEFINED`] for one that the renderer does not handle.
pub fn drm_fourcc_to_vk(fourcc: u32) -> (format: i32)
    ensures
        format == vk_format_of(fourcc),
{
    match fourcc {
        DRM_FORMAT_XRGB8888 | DRM_FORMAT_ARGB8888 => VK_FORMAT_B8G8R8A8_UNORM,
        DRM_FORMAT_XBGR8888 | DRM_FORMAT_ABGR8888 => VK_FORMAT_R8G8B8A8_UNORM,
        DRM_FORMAT_RGB565 => VK_FORMAT_R5G6B5_UNORM_PACK16,
        DRM_FORMAT_NV12 => VK_FORMAT_G8_B8R8_2PLANE_420_UNORM,
        _ => VK_FORMAT_UNDEFINED,
    }
}

/// What the device reports of one modifier of a format
/// (VkDrmFormatModifierPropertiesEXT).
#[derive(Clone, Copy, Debug, PartialEq, Eq)]
pub struct ModifierProperties {
    pub drm_format_modifier: u64,
    pub plane_count: u32,
    pub tiling_features: u32,
}

/// One thing to do when the renderer goes away.
#[derive(Clone, Copy, Debug, PartialEq, Eq)]
pub enum Teardown {
    /// Wait until the device is idle, whatever comes of it.
    WaitIdle,
    DestroyFence(u64),
    /// Free the memory, destroy the image and close the descriptor.
    ReleaseBuffer(DmaBuffer),
    DestroyCommandPool(u64),
    DestroyDevice,
    DestroyInstance,
}

/// The renderer as its contracts see it. Slots without a buffer hold `None`;
/// the null command pool is zero.
pub struct RendererView {
    pub queue_family: u32,
    pub format: Option<BufferFormat>,
    pub extent: (u32, u32),
    pub command_pool: u64,
    pub frame: Option<FrameData>,
    pub buffers: Seq<Option<DmaBuffer>>,
}

/// The renderer's state. It makes no call itself: [`Vulkan::draw`] and
/// [`Vulkan::step`] say which are to be made.
pub struct Vulkan {
    queue_family: u32,
    buffer_fmt: Option<BufferFormat>,
    extent: (u32, u32),
    command_pool: u64,
    frame: Option<FrameData>,
    buffers: [Option<DmaBuffer>; 2],
}

impl View for Vulkan {
    type V = RendererView;

    closed spec fn view(&self) -> RendererView {
        RendererView {
            queue_family: self.queue_family,
            format: self.buffer_fmt,
            extent: self.extent,
            command_pool: self.command_pool,
            frame: self.frame,
            buffers: self.buffers@,
        }
    }
}

impl RendererView {
    /// There are two slots, and where there is a buffer there are also the
    /// command buffer and the fence to render into it.
    pub open spec fn wf(self) -> bool {
        &&& self.buffers.len() == 2
        &&& forall|i: int|
            0 <= i < 2 && (#[trigger] self.buffers[i]) is Some ==> self.frame is Some
    }

    /// A draw into `slot` can start: there are two slots, and without a format
    /// a draw fails before it looks at its slot.
    pub open spec fn accepts(self, slot: usize) -> bool {
        slot < 2 || self.format is None
    }

    /// The draw can move on.
    pub open spec fn can_move(self, draw: Draw) -> bool {
        draw.slot < 2 || (self.format is None && (draw.stage is Resize || draw.stage is Release))
    }

    /// Where a draw goes on once the buffers have the right size.
    pub open spec fn ready(self, slot: int) -> Stage {
        match self.format {
            None => Stage::Failed { error: RenderError::NoFormat },
            Some(format) => match (self.buffers[slot], self.frame) {
                (Some(buffer), Some(frame)) => Stage::Render {
                    format,
                    buffer,
                    frame,
                    step: RenderStep::Begin,
                },
                _ => Stage::Image { format },
            },
        }
    }

    /// A draw of the given size that starts now.
    pub open spec fn started(self, slot: usize, width: u32, height: u32) -> Draw {
        Draw {
            slot,
            width,
            height,
            stage: if self.extent == (width, height) {
                self.ready(slot as int)
            } else {
                Stage::Resize
            },
        }
    }

    /// What is left to release, in the order in which it must go.
    pub open spec fn leftovers(self) -> Seq<Teardown> {
        seq![Teardown::WaitIdle] + (match self.frame {
            Some(frame) => seq![Teardown::DestroyFence(frame.fence)],
            None => seq![],
        }) + (match self.buffers[0] {
            Some(buffer) => seq![Teardown::ReleaseBuffer(buffer)],
            None => seq![],
        }) + (match self.buffers[1] {
            Some(buffer) => seq![Teardown::ReleaseBuffer(buffer)],
            None => seq![],
        }) + (if self.command_pool != 0 {
            seq![Teardown::DestroyCommandPool(self.command_pool)]
        } else {
            seq![]
        }) + seq![Teardown::DestroyDevice, Teardown::DestroyInstance]
    }

    /// The renderer after the buffer of the slot has been put in place, with
    /// `frame` to render into it.
    pub open spec fn installed(self, slot: int, buffer: DmaBuffer, frame: FrameData) -> Self {
        RendererView {
            frame: Some(frame),
            buffers: self.buffers.update(slot, Some(buffer)),
            ..self
        }
    }
}

/// The descriptor that a draw holds and that no buffer owns yet.
pub open spec fn in_hand(stage: Stage) -> Option<i32> {
    match stage {
        Stage::Layout { format: _, image: _, memory: _, fd } => Some(fd),
        Stage::Pool { format: _, buffer, queue_family: _ } => Some(buffer.fd),
        Stage::Commands { format: _, buffer, command_pool: _ } => Some(buffer.fd),
        Stage::Fence { format: _, buffer, command_buffer: _ } => Some(buffer.fd),
        Stage::Duplicate { format: _, buffer: _, sync_fd } => Some(sync_fd),
        _ => None,
    }
}

/// Where a draw goes whose next call failed: it fails under the name of the
/// step, after closing the descriptor in hand.
pub open spec fn after_failure(draw: Draw, failure: CallFailure) -> Stage {
    match draw.wanted() {
        Some(call) => match call.step() {
            Some(step) => {
                let error = RenderError::Call { step, code: failure.code, cause: failure.cause };
                match in_hand(draw.stage) {
                    Some(fd) => Stage::Abandon { fd, error },
                    None => Stage::Failed { error },
                }
            },
            None => draw.stage,
        },
        None => draw.stage,
    }
}

/// The renderer, and where the draw goes, when the draw's next call succeeded
/// with `reply`. A reply of another kind than the call gives changes nothing.
pub open spec fn after_success(v: RendererView, draw: Draw, reply: GpuReply) -> (
    RendererView,
    Stage,
) {
    match (draw.stage, reply) {
        (Stage::Resize, GpuReply::Done) => (
            RendererView {
                extent: (draw.width, draw.height),
                buffers: seq![None, None],
                ..v
            },
            Stage::Release { first: v.buffers[0], second: v.buffers[1] },
        ),
        (Stage::Release { .. }, GpuReply::Done) => (v, v.ready(draw.slot as int)),
        (Stage::Image { format }, GpuReply::Handle(image)) => (
            v,
            Stage::Requirements { format, image },
        ),
        (
            Stage::Requirements { format, image },
            GpuReply::Requirements { size, memory_type_bits, types },
        ) => (
            v,
            match exportable_memory_type(memory_type_bits, types) {
                Some(memory_type_index) => Stage::Allocate {
                    format,
                    image,
                    size,
                    memory_type_index,
                },
                None => Stage::Failed { error: RenderError::NoMemoryType },
            },
        ),
        (Stage::Allocate { format, image, .. }, GpuReply::Handle(memory)) => (
            v,
            Stage::Bind { format, image, memory },
        ),
        (Stage::Bind { format, image, memory }, GpuReply::Done) => (
            v,
            Stage::ExportMemory { format, image, memory },
        ),
        (Stage::ExportMemory { format, image, memory }, GpuReply::Fd(fd)) => (
            v,
            Stage::Layout { format, image, memory, fd },
        ),
        (Stage::Layout { format, image, memory, fd }, GpuReply::Layout { offset, row_pitch }) => {
            let buffer = DmaBuffer {
                image,
                memory,
                fd,
                plane: DmaPlane { offset, stride: row_pitch },
            };
            let sized = RendererView { extent: (draw.width, draw.height), ..v };
            match v.frame {
                Some(frame) => (
                    sized.installed(draw.slot as int, buffer, frame),
                    Stage::Render { format, buffer, frame, step: RenderStep::Begin },
                ),
                None => (
                    sized,
                    if v.command_pool == 0 {
                        Stage::Pool { format, buffer, queue_family: v.queue_family }
                    } else {
                        Stage::Commands { format, buffer, command_pool: v.command_pool }
                    },
                ),
            }
        },
        (Stage::Pool { format, buffer, queue_family: _ }, GpuReply::Handle(command_pool)) => (
            RendererView { command_pool, ..v },
            Stage::Commands { format, buffer, command_pool },
        ),
        (Stage::Commands { format, buffer, command_pool: _ }, GpuReply::Handle(command_buffer)) => (
            v,
            Stage::Fence { format, buffer, command_buffer },
        ),
        (Stage::Fence { format, buffer, command_buffer }, GpuReply::Handle(fence)) => {
            let frame = FrameData { command_buffer, fence };
            (
                v.installed(draw.slot as int, buffer, frame),
                Stage::Render { format, buffer, frame, step: RenderStep::Begin },
            )
        },
        (Stage::Render { format, buffer, frame, step }, reply) => (
            v,
            match (step.following(), reply) {
                (Some(next), GpuReply::Done) => Stage::Render { format, buffer, frame, step: next },
                (None, GpuReply::Fd(sync_fd)) => Stage::Duplicate { format, buffer, sync_fd },
                _ => draw.stage,
            },
        ),
        (Stage::Duplicate { format, buffer, sync_fd }, GpuReply::Fd(fd)) => (
            v,
            Stage::Finished { format, buffer, fd, sync_fd },
        ),
        (Stage::Abandon { fd: _, error }, GpuReply::Done) => (v, Stage::Failed { error }),
        _ => (v, draw.stage),
    }
}

/// The renderer and the draw after `result` has come back of the draw's next
/// call.
pub open spec fn after(v: RendererView, draw: Draw, result: CallResult) -> (RendererView, Draw) {
    match result {
        Ok(reply) => {
            let (w, stage) = after_success(v, draw, reply);
            (w, Draw { stage, ..draw })
        },
        Err(failure) => (v, Draw { stage: after_failure(draw, failure), ..draw }),
    }
}

impl Vulkan {
    #[verifier::type_invariant]
    spec fn inv(self) -> bool {
        self@.wf()
    }

    /// A renderer without a format and without buffers, on a device whose queue
    /// comes from `queue_family`.
    pub fn new(queue_family: u32) -> (renderer: Self)
        ensures
            renderer@ == (RendererView {
                queue_family,
                format: None,
                extent: (0, 0),
                command_pool: 0,
                frame: None,
                buffers: seq![None, None],
            }),
    {
        let buffers: [Option<DmaBuffer>; 2] = [None, None];
        assert(buffers@ =~= seq![None, None]);
        Vulkan {
            queue_family,
            buffer_fmt: None,
            extent: (0, 0),
            command_pool: 0,
            frame: None,
            buffers,
        }
    }

    /// Configure which DRM format and modifier to use for buffer creation.
    /// Must be called before the first draw. A format that is not a DRM format
    /// changes nothing.
    pub fn set_buffer_format(&mut self, fourcc: u32, modifier: u64)
        ensures
            final(self)@ == (if drm_fourcc_code(fourcc) is Some {
                RendererView {
                    format: Some(
                        BufferFormat { fourcc, vk_format: vk_format_of(fourcc), modifier },
                    ),
                    ..old(self)@
                }
            } else {
                old(self)@
            }),
            vk_format_of(fourcc) != VK_FORMAT_UNDEFINED ==> drm_fourcc_code(fourcc) is Some,
            vk_format_of(fourcc) != VK_FORMAT_UNDEFINED ==> final(self)@.format == Some(
                (BufferFormat { fourcc, vk_format: vk_format_of(fourcc), modifier }),
            ),
    {
        proof {
            use_type_invariant(&*self);
        }
        match recognize(fourcc) {
            Some(code) => {
                let vk_format: i32 = drm_fourcc_to_vk(code);
                self.buffer_fmt = Some(BufferFormat { fourcc, vk_format, modifier });
            },
            None => {},
        }
    }

    /// Whether a format has been configured.
    pub fn has_format(&self) -> (set: bool)
        ensures
            set == (self@.format is Some),
    {
        self.buffer_fmt.is_some()
    }

    fn ready_stage(&self, slot: usize) -> (stage: Stage)
        requires
            self@.accepts(slot),
        ensures
            stage == self@.ready(slot as int),
    {
        match self.buffer_fmt {
            None => Stage::Failed { error: RenderError::NoFormat },
            Some(format) => match (self.buffers[slot], self.frame) {
                (Some(buffer), Some(frame)) => Stage::Render {
                    format,
                    buffer,
                    frame,
                    step: RenderStep::Begin,
                },
                _ => Stage::Image { format },
            },
        }
    }

    /// Start drawing a frame into the buffer of `slot`, at `width`x`height`.
    pub fn draw(&self, slot: usize, width: u32, height: u32) -> (draw: Draw)
        requires
            self@.accepts(slot),
        ensures
            draw == self@.started(slot, width, height),
    {
        let stage = if self.extent.0 != width || self.extent.1 != height {
            Stage::Resize
        } else {
            self.ready_stage(slot)
        };
        Draw { slot, width, height, stage }
    }

    fn install(&mut self, slot: usize, buffer: DmaBuffer, frame: FrameData)
        requires
            slot < 2,
        ensures
            final(self)@ == old(self)@.installed(slot as int, buffer, frame),
    {
        proof {
            use_type_invariant(&*self);
        }
        self.frame = Some(frame);
        let mut buffers = self.buffers;
        buffers[slot] = Some(buffer);
        self.buffers = buffers;
    }

    fn fail(draw: &Draw, failure: CallFailure) -> (stage: Option<Stage>)
        ensures
            match stage {
                Some(stage) => stage == after_failure(*draw, failure),
                None => draw.stage == after_failure(*draw, failure),
            },
    {
        let call = match draw.call() {
            Some(call) => call,
            None => {
                return None;
            },
        };
        let step = match call.failing_step() {
            Some(step) => step,
            None => {
                return None;
            },
        };
        let error = RenderError::Call { step, code: failure.code, cause: failure.cause };
        Some(
            match &draw.stage {
                Stage::Layout { format: _, image: _, memory: _, fd } => Stage::Abandon {
                    fd: *fd,
                    error,
                },
                Stage::Pool { format: _, buffer, queue_family: _ } => Stage::Abandon {
                    fd: buffer.fd,
                    error,
                },
                Stage::Commands { format: _, buffer, command_pool: _ } => Stage::Abandon {
                    fd: buffer.fd,
                    error,
                },
                Stage::Fence { format: _, buffer, command_buffer: _ } => Stage::Abandon {
                    fd: buffer.fd,
                    error,
                },
                Stage::Duplicate { format: _, buffer: _, sync_fd } => Stage::Abandon {
                    fd: *sync_fd,
                    error,
                },
                _ => Stage::Failed { error },
            },
        )
    }

    fn succeed(&mut self, slot: usize, width: u32, height: u32, stage: Stage, reply: GpuReply) -> (
    next: Stage)
        requires
            old(self)@.can_move((Draw { slot, width, height, stage })),
        ensures
            (final(self)@, next) == after_success(
                old(self)@,
                (Draw { slot, width, height, stage }),
                reply,
            ),
    {
        proof {
            use_type_invariant(&*self);
        }
        match (stage, reply) {
            (Stage::Resize, GpuReply::Done) => {
                let released = self.buffers;
                let none: [Option<DmaBuffer>; 2] = [None, None];
                assert(none@ =~= seq![None, None]);
                self.buffers = none;
                self.extent = (width, height);
                Stage::Release { first: released[0], second: released[1] }
            },
            (Stage::Release { .. }, GpuReply::Done) => self.ready_stage(slot),
            (Stage::Image { format }, GpuReply::Handle(image)) => Stage::Requirements {
                format,
                image,
            },
            (
                Stage::Requirements { format, image },
                GpuReply::Requirements { size, memory_type_bits, types },
            ) => {
                match pick_exportable_memory_type(memory_type_bits, &types) {
                    Some(memory_type_index) => Stage::Allocate {
                        format,
                        image,
                        size,
                        memory_type_index,
                    },
                    None => Stage::Failed { error: RenderError::NoMemoryType },
                }
            },
            (Stage::Allocate { format, image, .. }, GpuReply::Handle(memory)) => Stage::Bind {
                format,
                image,
                memory,
            },
            (Stage::Bind { format, image, memory }, GpuReply::Done) => Stage::ExportMemory {
                format,
                image,
                memory,
            },
            (Stage::ExportMemory { format, image, memory }, GpuReply::Fd(fd)) => Stage::Layout {
                format,
                image,
                memory,
                fd,
            },
            (
                Stage::Layout { format, image, memory, fd },
                GpuReply::Layout { offset, row_pitch },
            ) => {
                let plane = DmaPlane { offset, stride: row_pitch };
                let buffer = DmaBuffer { image, memory, fd, plane };
                self.extent = (width, height);
                match self.frame {
                    Some(frame) => {
                        self.install(slot, buffer, frame);
                        Stage::Render { format, buffer, frame, step: RenderStep::Begin }
                    },
                    None => {
                        if self.command_pool == 0 {
                            Stage::Pool { format, buffer, queue_family: self.queue_family }
                        } else {
                            Stage::Commands { format, buffer, command_pool: self.command_pool }
                        }
                    },
                }
            },
            (Stage::Pool { format, buffer, queue_family: _ }, GpuReply::Handle(command_pool)) => {
                self.command_pool = command_pool;
                Stage::Commands { format, buffer, command_pool }
            },
            (
                Stage::Commands { format, buffer, command_pool: _ },
                GpuReply::Handle(command_buffer),
            ) => Stage::Fence { format, buffer, command_buffer },
            (Stage::Fence { format, buffer, command_buffer }, GpuReply::Handle(fence)) => {
                let frame = FrameData { command_buffer, fence };
                self.install(slot, buffer, frame);
                Stage::Render { format, buffer, frame, step: RenderStep::Begin }
            },
            (Stage::Render { format, buffer, frame, step }, reply) => match (step.next(), reply) {
                (Some(next), GpuReply::Done) => Stage::Render { format, buffer, frame, step: next },
                (None, GpuReply::Fd(sync_fd)) => Stage::Duplicate { format, buffer, sync_fd },
                _ => Stage::Render { format, buffer, frame, step },
            },
            (Stage::Duplicate { format, buffer, sync_fd }, GpuReply::Fd(fd)) => Stage::Finished {
                format,
                buffer,
                fd,
                sync_fd,
            },
            (Stage::Abandon { fd: _, error }, GpuReply::Done) => Stage::Failed { error },
            (stage, _) => stage,
        }
    }

    /// Move a draw on: `result` is what came back of its next call.
    pub fn step(&mut self, draw: Draw, result: CallResult) -> (next: Draw)
        requires
            old(self)@.can_move(draw),
        ensures
            (final(self)@, next) == after(old(self)@, draw, result),
    {
        let slot: usize = draw.slot;
        let width: u32 = draw.width;
        let height: u32 = draw.height;
        match result {
            Ok(reply) => {
                let stage = self.succeed(slot, width, height, draw.stage, reply);
                Draw { slot, width, height, stage }
            },
            Err(failure) => match Self::fail(&draw, failure) {
                Some(stage) => Draw { slot, width, height, stage },
                None => draw,
            },
        }
    }

    /// Returns the DRM modifiers that the physical device supports for the given
    /// DRM fourcc code. `query` reports what the device says of a `VkFormat`; it
    /// is asked only about formats that the renderer handles.
    pub fn get_supported_modifiers<F: FnOnce(i32) -> Vec<ModifierProperties>>(
        &self,
        fourcc: u32,
        query: F,
    ) -> (modifiers: Vec<u64>)
        requires
            vk_format_of(fourcc) != VK_FORMAT_UNDEFINED ==> call_requires(
                query,
                (vk_format_of(fourcc),),
            ),
        ensures
            vk_format_of(fourcc) == VK_FORMAT_UNDEFINED ==> modifiers@.len() == 0,
            vk_format_of(fourcc) != VK_FORMAT_UNDEFINED ==> exists|reported: Vec<ModifierProperties>|
                {
                    &&& #[trigger] call_ensures(query, (vk_format_of(fourcc),), reported)
                    &&& modifiers@ == reported@.map_values(
                        |p: ModifierProperties| p.drm_format_modifier,
                    )
                },
    {
        let mut modifiers: Vec<u64> = Vec::new();
        let vk_format: i32 = match recognize(fourcc) {
            Some(code) => drm_fourcc_to_vk(code),
            None => VK_FORMAT_UNDEFINED,
        };
        if vk_format == VK_FORMAT_UNDEFINED {
            return modifiers;
        }
        let reported = query(vk_format);
        let ghost wanted = reported@.map_values(|p: ModifierProperties| p.drm_format_modifier);
        let mut i: usize = 0;
        while i < reported.len()
            invariant
                i <= reported@.len(),
                wanted == reported@.map_values(|p: ModifierProperties| p.drm_format_modifier),
                modifiers@ == wanted.take(i as int),
            decreases reported@.len() - i,
        {
            modifiers.push(reported[i].drm_format_modifier);
            i += 1;
            assert(modifiers@ =~= wanted.take(i as int));
        }
        assert(modifiers@ =~= wanted);
        modifiers
    }

    /// Give up everything the renderer holds: what to release, in order.
    pub fn teardown(&mut self) -> (plan: Vec<Teardown>)
        ensures
            plan@ == old(self)@.leftovers(),
            final(self)@ == (RendererView {
                frame: None,
                buffers: seq![None, None],
                ..old(self)@
            }),
    {
        proof {
            use_type_invariant(&*self);
        }
        let mut plan: Vec<Teardown> = Vec::new();
        plan.push(Teardown::WaitIdle);
        match self.frame {
            Some(frame) => plan.push(Teardown::DestroyFence(frame.fence)),
            None => {},
        }
        match self.buffers[0] {
            Some(buffer) => plan.push(Teardown::ReleaseBuffer(buffer)),
            None => {},
        }
        match self.buffers[1] {
            Some(buffer) => plan.push(Teardown::ReleaseBuffer(buffer)),
            None => {},
        }
        if self.command_pool != 0 {
            plan.push(Teardown::DestroyCommandPool(self.command_pool));
        }
        plan.push(Teardown::DestroyDevice);
        plan.push(Teardown::DestroyInstance);
        assert(plan@ =~= self@.leftovers());
        let none: [Option<DmaBuffer>; 2] = [None, None];
        assert(none@ =~= seq![None, None]);
        self.buffers = none;
        self.frame = None;
        plan
    }
}

} // verus!
