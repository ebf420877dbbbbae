//! What holds of every draw, whatever the device answers.

use vstd::multiset::Multiset;
use vstd::prelude::*;

use crate::negotiation::{law_negotiated_is_mutual, negotiated};
use crate::renderer::calls::{
    BufferFormat, CallFailure, CallResult, DmaBuffer, Draw, FrameData, GpuCall, GpuReply,
    RenderStep, Stage,
};
use crate::renderer::device::{exportable_memory_type, MemoryTypes};
use crate::renderer::error::{GpuStep, RenderError};
use crate::renderer::vulkan::{
    after, in_hand, vk_format_of, RendererView, Teardown, VK_FORMAT_UNDEFINED,
};
use crate::DmaPlane;

verus! {

/// The renderer and the draw after `results` have come back, one per call.
pub open spec fn after_all(v: RendererView, draw: Draw, results: Seq<CallResult>) -> (
    RendererView,
    Draw,
)
    decreases results.len(),
{
    if results.len() == 0 {
        (v, draw)
    } else {
        let (w, d) = after_all(v, draw, results.drop_last());
        after(w, d, results.last())
    }
}

/// The calls that the draw makes while `results` come back.
pub open spec fn calls_made(v: RendererView, draw: Draw, results: Seq<CallResult>) -> Seq<GpuCall>
    decreases results.len(),
{
    if results.len() == 0 {
        seq![]
    } else {
        let made = calls_made(v, draw, results.drop_last());
        match after_all(v, draw, results.drop_last()).1.wanted() {
            Some(call) => made.push(call),
            None => made,
        }
    }
}

/// How many calls a draw can still make, at most.
pub open spec fn calls_left(stage: Stage) -> nat {
    match stage {
        Stage::Resize => 19,
        Stage::Release { .. } => 18,
        Stage::Image { .. } => 17,
        Stage::Requirements { .. } => 16,
        Stage::Allocate { .. } => 15,
        Stage::Bind { .. } => 14,
        Stage::ExportMemory { .. } => 13,
        Stage::Layout { .. } => 12,
        Stage::Pool { .. } => 11,
        Stage::Commands { .. } => 10,
        Stage::Fence { .. } => 9,
        Stage::Render { format: _, buffer: _, frame: _, step } => match step {
            RenderStep::Begin => 8,
            RenderStep::Record => 7,
            RenderStep::End => 6,
            RenderStep::Reset => 5,
            RenderStep::Submit => 4,
            RenderStep::Export => 3,
        },
        Stage::Duplicate { .. } => 2,
        Stage::Abandon { .. } => 1,
        Stage::Finished { .. } => 0,
        Stage::Failed { .. } => 0,
    }
}

/// Each of `results` is an answer that the call it came back of can give.
pub open spec fn answers_fit(v: RendererView, draw: Draw, results: Seq<CallResult>) -> bool
    decreases results.len(),
{
    results.len() > 0 ==> {
        &&& answers_fit(v, draw, results.drop_last())
        &&& after_all(v, draw, results.drop_last()).1.wanted() matches Some(call)
        &&& call.can_give(results.last())
    }
}

/// Every answer that a call can give moves a draw on, so that each draw
/// finishes or fails after at most nineteen calls.
pub proof fn law_every_draw_ends(v: RendererView, draw: Draw, results: Seq<CallResult>)
    requires
        answers_fit(v, draw, results),
    ensures
        results.len() + calls_left(after_all(v, draw, results).1.stage) <= calls_left(draw.stage),
        results.len() <= calls_left(draw.stage) <= 19,
        results.len() == 19 ==> after_all(v, draw, results).1.wanted() is None,
    decreases results.len(),
{
    if results.len() > 0 {
        law_every_draw_ends(v, draw, results.drop_last());
        let (w, d) = after_all(v, draw, results.drop_last());
        assert(calls_left(after(w, d, results.last()).1.stage) < calls_left(d.stage));
    }
}

/// A draw that has come to an end wants no call, and one that has not does.
pub proof fn law_only_ended_draws_want_nothing(draw: Draw)
    ensures
        draw.wanted() is None <==> draw.stage is Finished || draw.stage is Failed,
{
}

/// No answer breaks the renderer: a slot that has a buffer can always be
/// rendered into.
pub proof fn law_renderer_stays_whole(v: RendererView, draw: Draw, result: CallResult)
    requires
        v.wf(),
        v.can_move(draw),
    ensures
        after(v, draw, result).0.wf(),
{
    let w = after(v, draw, result).0;
    assert forall|i: int| 0 <= i < 2 && (#[trigger] w.buffers[i]) is Some implies w.frame is Some by {
        if v.buffers[i] is Some {
        }
    }
}

/// A call that fails leaves the renderer as it was and ends the draw with the
/// name of the step, the code and the cause: at once if no descriptor is in
/// hand, else after closing it.
pub proof fn law_failure_is_reported(
    v: RendererView,
    draw: Draw,
    failure: CallFailure,
    step: GpuStep,
)
    requires
        draw.wanted() matches Some(call) && call.step() == Some(step),
    ensures
        ({
            let error = RenderError::Call { step, code: failure.code, cause: failure.cause };
            let (w, d) = after(v, draw, Err(failure));
            &&& w == v
            &&& match in_hand(draw.stage) {
                None => d.stage == Stage::Failed { error },
                Some(fd) => {
                    let (x, e) = after(w, d, Ok(GpuReply::Done));
                    &&& d.wanted() == Some(GpuCall::CloseFd { fd })
                    &&& x == v
                    &&& e.stage == Stage::Failed { error }
                },
            }
        }),
{
}

/// A size other than the last one makes the draw wait for the device first.
/// Once it is idle no buffer of the old size is left: all are handed over to be
/// released, and the new size is remembered.
pub proof fn law_resize_clears_all_buffers(
    v: RendererView,
    slot: usize,
    width: u32,
    height: u32,
)
    requires
        v.wf(),
        v.accepts(slot),
        v.extent != (width, height),
    ensures
        ({
            let draw = v.started(slot, width, height);
            let (w, d) = after(v, draw, Ok(GpuReply::Done));
            &&& draw.wanted() == Some(GpuCall::WaitIdle)
            &&& w.extent == (width, height)
            &&& w.buffers == seq![None::<DmaBuffer>, None]
            &&& d.wanted() == Some(
                GpuCall::ReleaseBuffers { first: v.buffers[0], second: v.buffers[1] },
            )
        }),
{
}

/// Without a configured format no frame is drawn, whatever the slot: the draw
/// fails before it creates anything, after a resize as well as without one.
pub proof fn law_format_comes_first(v: RendererView, slot: usize, width: u32, height: u32)
    requires
        v.wf(),
        v.format is None,
    ensures
        ({
            let draw = v.started(slot, width, height);
            let stage = Stage::Failed { error: RenderError::NoFormat };
            if v.extent == (width, height) {
                draw.stage == stage
            } else {
                let done: CallResult = Ok(GpuReply::Done);
                let (w, d) = after_all(v, draw, seq![done, done]);
                &&& d.stage == stage
                &&& w.buffers == seq![None::<DmaBuffer>, None]
                &&& calls_made(v, draw, seq![done, done]) == seq![
                    GpuCall::WaitIdle,
                    GpuCall::ReleaseBuffers { first: v.buffers[0], second: v.buffers[1] },
                ]
            }
        }),
{
    let draw = v.started(slot, width, height);
    let done: CallResult = Ok(GpuReply::Done);
    if v.extent != (width, height) {
        let (w, d) = after(v, draw, done);
        let release = GpuCall::ReleaseBuffers { first: v.buffers[0], second: v.buffers[1] };
        lemma_one_more(v, draw, seq![], v, draw, GpuCall::WaitIdle, done);
        assert(seq![].push(done) =~= seq![done]);
        lemma_one_more(v, draw, seq![done], w, d, release, done);
        assert(seq![done].push(done) =~= seq![done, done]);
        assert(calls_made(v, draw, seq![done, done]) =~= seq![GpuCall::WaitIdle, release]);
    }
}

/// One more answer: the call that was wanted is made, and the draw moves on.
proof fn lemma_one_more(
    v: RendererView,
    draw: Draw,
    results: Seq<CallResult>,
    w: RendererView,
    d: Draw,
    call: GpuCall,
    result: CallResult,
)
    requires
        after_all(v, draw, results) == (w, d),
        d.wanted() == Some(call),
    ensures
        after_all(v, draw, results.push(result)) == after(w, d, result),
        calls_made(v, draw, results.push(result)) == calls_made(v, draw, results).push(call),
{
    assert(results.push(result).drop_last() =~= results);
}

/// The calls that render into a buffer that exists, in their order.
pub open spec fn render_calls(slot: usize, buffer: DmaBuffer, frame: FrameData) -> Seq<GpuCall> {
    seq![
        GpuCall::BeginCommands { command_buffer: frame.command_buffer },
        GpuCall::Record { slot, command_buffer: frame.command_buffer, image: buffer.image },
        GpuCall::EndCommands { command_buffer: frame.command_buffer },
        GpuCall::ResetFence { fence: frame.fence },
        GpuCall::Submit { command_buffer: frame.command_buffer, fence: frame.fence },
        GpuCall::ExportFence { fence: frame.fence },
        GpuCall::DuplicateFd { fd: buffer.fd },
    ]
}

/// The answers to [`render_calls`] if all goes well.
pub open spec fn render_answers(sync_fd: i32, fd: i32) -> Seq<CallResult> {
    seq![
        Ok(GpuReply::Done),
        Ok(GpuReply::Done),
        Ok(GpuReply::Done),
        Ok(GpuReply::Done),
        Ok(GpuReply::Done),
        Ok(GpuReply::Fd(sync_fd)),
        Ok(GpuReply::Fd(fd)),
    ]
}

/// The draw, at another stage.
pub open spec fn at(draw: Draw, stage: Stage) -> Draw {
    Draw { stage, ..draw }
}

/// After `results` the renderer is `w`, the draw is `d`, and it has made `calls`.
#[verifier::opaque]
spec fn reached(
    v: RendererView,
    draw: Draw,
    results: Seq<CallResult>,
    w: RendererView,
    d: Draw,
    calls: Seq<GpuCall>,
) -> bool {
    &&& after_all(v, draw, results) == (w, d)
    &&& calls_made(v, draw, results) == calls
}

/// One more answer: the call that was wanted is made, and the draw moves on.
proof fn lemma_reach(
    v: RendererView,
    draw: Draw,
    results: Seq<CallResult>,
    w: RendererView,
    d: Draw,
    calls: Seq<GpuCall>,
    call: GpuCall,
    result: CallResult,
    x: RendererView,
    e: Draw,
)
    requires
        reached(v, draw, results, w, d, calls),
        d.wanted() == Some(call),
        after(w, d, result) == (x, e),
    ensures
        reached(v, draw, results.push(result), x, e, calls.push(call)),
{
    reveal(reached);
    lemma_one_more(v, draw, results, w, d, call, result);
}

/// One call of the rendering before the last, with its answer.
proof fn lemma_render_step(
    v: RendererView,
    draw: Draw,
    results: Seq<CallResult>,
    w: RendererView,
    format: BufferFormat,
    buffer: DmaBuffer,
    frame: FrameData,
    step: RenderStep,
    calls: Seq<GpuCall>,
    call: GpuCall,
    next: RenderStep,
)
    requires
        reached(
            v,
            draw,
            results,
            w,
            at(draw, (Stage::Render { format, buffer, frame, step })),
            calls,
        ),
        step.following() == Some(next),
        at(draw, (Stage::Render { format, buffer, frame, step })).wanted() == Some(call),
    ensures
        reached(
            v,
            draw,
            results.push(Ok(GpuReply::Done)),
            w,
            at(draw, (Stage::Render { format, buffer, frame, step: next })),
            calls.push(call),
        ),
{
    lemma_reach(
        v,
        draw,
        results,
        w,
        at(draw, Stage::Render { format, buffer, frame, step }),
        calls,
        call,
        Ok(GpuReply::Done),
        w,
        at(draw, Stage::Render { format, buffer, frame, step: next }),
    );
}

/// The last calls of the rendering, with their answers.
proof fn lemma_render_end(
    v: RendererView,
    draw: Draw,
    results: Seq<CallResult>,
    w: RendererView,
    format: BufferFormat,
    buffer: DmaBuffer,
    frame: FrameData,
    calls: Seq<GpuCall>,
    sync_fd: i32,
    fd: i32,
)
    requires
        reached(
            v,
            draw,
            results,
            w,
            at(draw, (Stage::Render { format, buffer, frame, step: RenderStep::Export })),
            calls,
        ),
    ensures
        reached(
            v,
            draw,
            results.push(Ok(GpuReply::Fd(sync_fd))).push(Ok(GpuReply::Fd(fd))),
            w,
            at(draw, (Stage::Finished { format, buffer, fd, sync_fd })),
            calls.push(GpuCall::ExportFence { fence: frame.fence }).push(
                GpuCall::DuplicateFd { fd: buffer.fd },
            ),
        ),
{
    let export = GpuCall::ExportFence { fence: frame.fence };
    let duplicate = GpuCall::DuplicateFd { fd: buffer.fd };
    let synced: CallResult = Ok(GpuReply::Fd(sync_fd));
    let s0 = at(draw, Stage::Render { format, buffer, frame, step: RenderStep::Export });
    let s1 = at(draw, Stage::Duplicate { format, buffer, sync_fd });
    let s2 = at(draw, Stage::Finished { format, buffer, fd, sync_fd });
    lemma_reach(v, draw, results, w, s0, calls, export, synced, w, s1);
    lemma_reach(
        v,
        draw,
        results.push(synced),
        w,
        s1,
        calls.push(export),
        duplicate,
        Ok(GpuReply::Fd(fd)),
        w,
        s2,
    );
}

/// What rendering adds to a draw that has got as far as beginning to render.
proof fn lemma_rendering_reached(
    v: RendererView,
    draw: Draw,
    results: Seq<CallResult>,
    w: RendererView,
    format: BufferFormat,
    buffer: DmaBuffer,
    frame: FrameData,
    before: Seq<GpuCall>,
    sync_fd: i32,
    fd: i32,
)
    requires
        reached(
            v,
            draw,
            results,
            w,
            at(draw, (Stage::Render { format, buffer, frame, step: RenderStep::Begin })),
            before,
        ),
    ensures
        reached(
            v,
            draw,
            results + render_answers(sync_fd, fd),
            w,
            at(draw, (Stage::Finished { format, buffer, fd, sync_fd })),
            before + render_calls(draw.slot, buffer, frame),
        ),
{
    let done: CallResult = Ok(GpuReply::Done);
    let calls = render_calls(draw.slot, buffer, frame);
    let r1 = results.push(done);
    let r2 = r1.push(done);
    let r3 = r2.push(done);
    let r4 = r3.push(done);
    let r5 = r4.push(done);
    let c1 = before.push(calls[0]);
    let c2 = c1.push(calls[1]);
    let c3 = c2.push(calls[2]);
    let c4 = c3.push(calls[3]);
    let c5 = c4.push(calls[4]);
    let (s0, s1) = (RenderStep::Begin, RenderStep::Record);
    let (s2, s3) = (RenderStep::End, RenderStep::Reset);
    let (s4, s5) = (RenderStep::Submit, RenderStep::Export);
    lemma_render_step(v, draw, results, w, format, buffer, frame, s0, before, calls[0], s1);
    lemma_render_step(v, draw, r1, w, format, buffer, frame, s1, c1, calls[1], s2);
    lemma_render_step(v, draw, r2, w, format, buffer, frame, s2, c2, calls[2], s3);
    lemma_render_step(v, draw, r3, w, format, buffer, frame, s3, c3, calls[3], s4);
    lemma_render_step(v, draw, r4, w, format, buffer, frame, s4, c4, calls[4], s5);
    lemma_render_end(v, draw, r5, w, format, buffer, frame, c5, sync_fd, fd);
    assert(results + render_answers(sync_fd, fd) =~= r5.push(Ok(GpuReply::Fd(sync_fd))).push(
        Ok(GpuReply::Fd(fd)),
    ));
    assert(before + calls =~= c5.push(calls[5]).push(calls[6]));
}

/// What rendering adds to a draw that has got as far as beginning to render.
proof fn lemma_rendering(
    v: RendererView,
    draw: Draw,
    results: Seq<CallResult>,
    format: BufferFormat,
    buffer: DmaBuffer,
    frame: FrameData,
    sync_fd: i32,
    fd: i32,
)
    requires
        after_all(v, draw, results).1 == at(
            draw,
            (Stage::Render { format, buffer, frame, step: RenderStep::Begin }),
        ),
    ensures
        after_all(v, draw, results + render_answers(sync_fd, fd)) == (
            after_all(v, draw, results).0,
            at(draw, (Stage::Finished { format, buffer, fd, sync_fd })),
        ),
        calls_made(v, draw, results + render_answers(sync_fd, fd)) == calls_made(v, draw, results)
            + render_calls(draw.slot, buffer, frame),
{
    let w = after_all(v, draw, results).0;
    let before = calls_made(v, draw, results);
    reveal(reached);
    lemma_rendering_reached(v, draw, results, w, format, buffer, frame, before, sync_fd, fd);
}

/// A frame of the same size as the last one is drawn into the buffer that the
/// slot already has: nothing is created, the renderer stays as it is, and if
/// every call succeeds the frame describes that buffer in the configured format.
pub proof fn law_same_size_reuses_the_buffer(
    v: RendererView,
    slot: usize,
    width: u32,
    height: u32,
    sync_fd: i32,
    fd: i32,
)
    requires
        v.wf(),
        slot < 2,
        v.extent == (width, height),
        v.format is Some,
        v.buffers[slot as int] is Some,
    ensures
        ({
            let draw = v.started(slot, width, height);
            let buffer = v.buffers[slot as int]->0;
            let format = v.format->0;
            let answers = render_answers(sync_fd, fd);
            &&& calls_made(v, draw, answers) == render_calls(slot, buffer, v.frame->0)
            &&& after_all(v, draw, answers) == (
                v,
                at(draw, (Stage::Finished { format, buffer, fd, sync_fd })),
            )
        }),
{
    let draw = v.started(slot, width, height);
    let none = Seq::<CallResult>::empty();
    assert(v.frame is Some);
    lemma_rendering(
        v,
        draw,
        none,
        v.format->0,
        v.buffers[slot as int]->0,
        v.frame->0,
        sync_fd,
        fd,
    );
    assert(none + render_answers(sync_fd, fd) =~= render_answers(sync_fd, fd));
    assert(calls_made(v, draw, none) =~= seq![]);
    assert(calls_made(v, draw, none) + render_calls(
        slot,
        v.buffers[slot as int]->0,
        v.frame->0,
    ) =~= render_calls(slot, v.buffers[slot as int]->0, v.frame->0));
}

/// What the device answers while the first buffer of a renderer is created.
pub struct CreationAnswers {
    pub image: u64,
    pub size: u64,
    pub memory_type_bits: u32,
    pub types: MemoryTypes,
    pub memory: u64,
    pub fd: i32,
    pub offset: u64,
    pub row_pitch: u64,
    pub command_pool: u64,
    pub command_buffer: u64,
    pub fence: u64,
}

impl CreationAnswers {
    /// The buffer that these answers make.
    pub open spec fn buffer(self) -> DmaBuffer {
        DmaBuffer {
            image: self.image,
            memory: self.memory,
            fd: self.fd,
            plane: DmaPlane { offset: self.offset, stride: self.row_pitch },
        }
    }

    /// The command buffer and the fence among these answers.
    pub open spec fn frame(self) -> FrameData {
        FrameData { command_buffer: self.command_buffer, fence: self.fence }
    }

    /// The answers, call by call.
    pub open spec fn results(self) -> Seq<CallResult> {
        seq![
            Ok(GpuReply::Done),
            Ok(GpuReply::Done),
            Ok(GpuReply::Handle(self.image)),
            Ok(
                GpuReply::Requirements {
                    size: self.size,
                    memory_type_bits: self.memory_type_bits,
                    types: self.types,
                },
            ),
            Ok(GpuReply::Handle(self.memory)),
            Ok(GpuReply::Done),
            Ok(GpuReply::Fd(self.fd)),
            Ok(GpuReply::Layout { offset: self.offset, row_pitch: self.row_pitch }),
            Ok(GpuReply::Handle(self.command_pool)),
            Ok(GpuReply::Handle(self.command_buffer)),
            Ok(GpuReply::Handle(self.fence)),
        ]
    }
}

/// The calls that a renderer's first frame makes before it renders.
pub open spec fn creation_calls(
    v: RendererView,
    width: u32,
    height: u32,
    format: BufferFormat,
    memory_type_index: u32,
    answers: CreationAnswers,
) -> Seq<GpuCall> {
    seq![
        GpuCall::WaitIdle,
        GpuCall::ReleaseBuffers { first: v.buffers[0], second: v.buffers[1] },
        GpuCall::CreateImage {
            width,
            height,
            vk_format: format.vk_format,
            modifier: format.modifier,
        },
        GpuCall::MemoryRequirements { image: answers.image },
        GpuCall::AllocateMemory { image: answers.image, size: answers.size, memory_type_index },
        GpuCall::BindMemory { image: answers.image, memory: answers.memory },
        GpuCall::ExportMemory { memory: answers.memory },
        GpuCall::PlaneLayout { image: answers.image },
        GpuCall::CreateCommandPool { queue_family: v.queue_family },
        GpuCall::AllocateCommandBuffer { command_pool: answers.command_pool },
        GpuCall::CreateFence,
    ]
}

/// The first frame of a renderer creates the image, its memory and its
/// descriptor, then the command pool, the command buffer and the fence, and then
/// renders; everything that was created is kept for the frames to come.
pub proof fn law_first_frame_creates_everything(
    v: RendererView,
    slot: usize,
    width: u32,
    height: u32,
    answers: CreationAnswers,
    sync_fd: i32,
    fd: i32,
)
    requires
        v.wf(),
        slot < 2,
        v.extent != (width, height),
        v.format is Some,
        v.frame is None,
        v.command_pool == 0,
        exportable_memory_type(answers.memory_type_bits, answers.types) is Some,
    ensures
        ({
            let draw = v.started(slot, width, height);
            let format = v.format->0;
            let memory_type_index = exportable_memory_type(
                answers.memory_type_bits,
                answers.types,
            )->0;
            let results = answers.results() + render_answers(sync_fd, fd);
            &&& calls_made(v, draw, results) == creation_calls(
                v,
                width,
                height,
                format,
                memory_type_index,
                answers,
            ) + render_calls(slot, answers.buffer(), answers.frame())
            &&& after_all(v, draw, results) == (
                RendererView {
                    extent: (width, height),
                    command_pool: answers.command_pool,
                    frame: Some(answers.frame()),
                    buffers: seq![None, None].update(slot as int, Some(answers.buffer())),
                    ..v
                },
                at(
                    draw,
                    (Stage::Finished { format, buffer: answers.buffer(), fd, sync_fd }),
                ),
            )
        }),
{
    let draw = v.started(slot, width, height);
    let all = answers.results();
    let format = v.format->0;
    let image = answers.image;
    let memory = answers.memory;
    let buffer = answers.buffer();
    let memory_type_index = exportable_memory_type(answers.memory_type_bits, answers.types)->0;
    let calls = creation_calls(v, width, height, format, memory_type_index, answers);
    let w = RendererView { extent: (width, height), buffers: seq![None, None], ..v };
    let x = RendererView { command_pool: answers.command_pool, ..w };
    let d1 = Draw { stage: Stage::Release { first: v.buffers[0], second: v.buffers[1] }, ..draw };
    let d2 = Draw { stage: Stage::Image { format }, ..draw };
    let d3 = Draw { stage: Stage::Requirements { format, image }, ..draw };
    let d4 = Draw {
        stage: Stage::Allocate { format, image, size: answers.size, memory_type_index },
        ..draw
    };
    let d5 = Draw { stage: Stage::Bind { format, image, memory }, ..draw };
    let d6 = Draw { stage: Stage::ExportMemory { format, image, memory }, ..draw };
    let d7 = Draw { stage: Stage::Layout { format, image, memory, fd: answers.fd }, ..draw };
    let d8 = Draw {
        stage: Stage::Pool { format, buffer, queue_family: v.queue_family },
        ..draw
    };
    let d9 = Draw {
        stage: Stage::Commands { format, buffer, command_pool: answers.command_pool },
        ..draw
    };
    let d10 = Draw {
        stage: Stage::Fence { format, buffer, command_buffer: answers.command_buffer },
        ..draw
    };
    let frame = answers.frame();
    let y = x.installed(slot as int, buffer, frame);
    let d11 = at(draw, Stage::Render { format, buffer, frame, step: RenderStep::Begin });
    let r0 = Seq::<CallResult>::empty();
    let c0 = Seq::<GpuCall>::empty();
    let r1 = r0.push(all[0]);
    let c1 = c0.push(calls[0]);
    let r2 = r1.push(all[1]);
    let c2 = c1.push(calls[1]);
    let r3 = r2.push(all[2]);
    let c3 = c2.push(calls[2]);
    let r4 = r3.push(all[3]);
    let c4 = c3.push(calls[3]);
    let r5 = r4.push(all[4]);
    let c5 = c4.push(calls[4]);
    let r6 = r5.push(all[5]);
    let c6 = c5.push(calls[5]);
    let r7 = r6.push(all[6]);
    let c7 = c6.push(calls[6]);
    let r8 = r7.push(all[7]);
    let c8 = c7.push(calls[7]);
    let r9 = r8.push(all[8]);
    let c9 = c8.push(calls[8]);
    let r10 = r9.push(all[9]);
    let c10 = c9.push(calls[9]);
    let r11 = r10.push(all[10]);
    let c11 = c10.push(calls[10]);
    assert(reached(v, draw, r0, v, draw, c0)) by {
        reveal(reached);
    }
    lemma_reach(v, draw, r0, v, draw, c0, calls[0], all[0], w, d1);
    lemma_reach(v, draw, r1, w, d1, c1, calls[1], all[1], w, d2);
    lemma_reach(v, draw, r2, w, d2, c2, calls[2], all[2], w, d3);
    lemma_reach(v, draw, r3, w, d3, c3, calls[3], all[3], w, d4);
    lemma_reach(v, draw, r4, w, d4, c4, calls[4], all[4], w, d5);
    lemma_reach(v, draw, r5, w, d5, c5, calls[5], all[5], w, d6);
    lemma_reach(v, draw, r6, w, d6, c6, calls[6], all[6], w, d7);
    lemma_reach(v, draw, r7, w, d7, c7, calls[7], all[7], w, d8);
    lemma_reach(v, draw, r8, w, d8, c8, calls[8], all[8], x, d9);
    lemma_reach(v, draw, r9, x, d9, c9, calls[9], all[9], x, d10);
    lemma_reach(v, draw, r10, x, d10, c10, calls[10], all[10], y, d11);
    lemma_rendering_reached(v, draw, r11, y, format, buffer, frame, c11, sync_fd, fd);
    assert(r11 =~= all);
    assert(c11 =~= calls);
    reveal(reached);
}

/// The descriptor of a buffer.
pub open spec fn buffer_fds(buffer: Option<DmaBuffer>) -> Multiset<i32> {
    match buffer {
        Some(buffer) => Multiset::singleton(buffer.fd),
        None => Multiset::empty(),
    }
}

/// The descriptors that a draw holds itself.
pub open spec fn draw_fds(stage: Stage) -> Multiset<i32> {
    match stage {
        Stage::Release { first, second } => buffer_fds(first).add(buffer_fds(second)),
        Stage::Abandon { fd, error: _ } => Multiset::singleton(fd),
        Stage::Finished { format: _, buffer: _, fd, sync_fd } => Multiset::singleton(fd).add(
            Multiset::singleton(sync_fd),
        ),
        _ => match in_hand(stage) {
            Some(fd) => Multiset::singleton(fd),
            None => Multiset::empty(),
        },
    }
}

/// All the descriptors that the renderer and the draw hold.
pub open spec fn held_fds(v: RendererView, draw: Draw) -> Multiset<i32> {
    buffer_fds(v.buffers[0]).add(buffer_fds(v.buffers[1])).add(draw_fds(draw.stage))
}

/// The descriptor that an answer brings.
pub open spec fn opened_fds(result: CallResult) -> Multiset<i32> {
    match result {
        Ok(GpuReply::Fd(fd)) => Multiset::singleton(fd),
        _ => Multiset::empty(),
    }
}

/// The descriptors that a call closes.
pub open spec fn closed_fds(call: GpuCall) -> Multiset<i32> {
    match call {
        GpuCall::ReleaseBuffers { first, second } => buffer_fds(first).add(buffer_fds(second)),
        GpuCall::CloseFd { fd } => Multiset::singleton(fd),
        _ => Multiset::empty(),
    }
}

/// The draw creates a buffer for its slot.
pub open spec fn is_creating(stage: Stage) -> bool {
    match stage {
        Stage::Image { .. } => true,
        Stage::Requirements { .. } => true,
        Stage::Allocate { .. } => true,
        Stage::Bind { .. } => true,
        Stage::ExportMemory { .. } => true,
        Stage::Layout { .. } => true,
        Stage::Pool { .. } => true,
        Stage::Commands { .. } => true,
        Stage::Fence { .. } => true,
        _ => false,
    }
}

/// A draw creates a buffer only while its slot has none.
pub open spec fn in_step(v: RendererView, draw: Draw) -> bool {
    is_creating(draw.stage) ==> v.buffers[draw.slot as int] is None
}

/// A draw that has just started is in step with the renderer.
pub proof fn law_started_in_step(v: RendererView, slot: usize, width: u32, height: u32)
    requires
        v.wf(),
        v.accepts(slot),
    ensures
        in_step(v, v.started(slot, width, height)),
        draw_fds(v.started(slot, width, height).stage) == Multiset::<i32>::empty(),
{
}

/// No descriptor is lost and none is closed twice: after each call the renderer
/// and the draw hold what they held before, with the one that the call opened
/// and without those that it closed.
pub proof fn law_descriptors_are_accounted_for(v: RendererView, draw: Draw, result: CallResult)
    requires
        v.wf(),
        v.can_move(draw),
        in_step(v, draw),
        draw.wanted() matches Some(call) && call.can_give(result),
    ensures
        ({
            let (w, d) = after(v, draw, result);
            &&& in_step(w, d)
            &&& held_fds(w, d).add(closed_fds(draw.wanted()->0)) == held_fds(v, draw).add(
                opened_fds(result),
            )
        }),
{
    let (w, d) = after(v, draw, result);
    assert(held_fds(w, d).add(closed_fds(draw.wanted()->0)) =~= held_fds(v, draw).add(
        opened_fds(result),
    ));
}

/// The descriptors that all of `results` bring.
pub open spec fn all_opened_fds(results: Seq<CallResult>) -> Multiset<i32>
    decreases results.len(),
{
    if results.len() == 0 {
        Multiset::empty()
    } else {
        all_opened_fds(results.drop_last()).add(opened_fds(results.last()))
    }
}

/// The descriptors that all of `calls` close.
pub open spec fn all_closed_fds(calls: Seq<GpuCall>) -> Multiset<i32>
    decreases calls.len(),
{
    if calls.len() == 0 {
        Multiset::empty()
    } else {
        all_closed_fds(calls.drop_last()).add(closed_fds(calls.last()))
    }
}

/// Over a whole draw, however it ends, every descriptor that the renderer had or
/// that a call opened is closed by one of the calls, held by the renderer, or one
/// of the two that a finished draw hands out. A failed draw hands out none.
pub proof fn law_draw_accounts_for_every_descriptor(
    v: RendererView,
    slot: usize,
    width: u32,
    height: u32,
    results: Seq<CallResult>,
)
    requires
        v.wf(),
        v.accepts(slot),
        answers_fit(v, v.started(slot, width, height), results),
    ensures
        ({
            let draw = v.started(slot, width, height);
            let (w, d) = after_all(v, draw, results);
            &&& held_fds(w, d).add(all_closed_fds(calls_made(v, draw, results))) == held_fds(
                v,
                draw,
            ).add(all_opened_fds(results))
            &&& d.stage is Failed ==> draw_fds(d.stage) == Multiset::<i32>::empty()
            &&& d.stage matches Stage::Finished { format: _, buffer: _, fd, sync_fd }
                ==> draw_fds(d.stage) == Multiset::singleton(fd).add(Multiset::singleton(sync_fd))
        }),
{
    lemma_descriptors(v, v.started(slot, width, height), results);
}

proof fn lemma_descriptors(v: RendererView, draw: Draw, results: Seq<CallResult>)
    requires
        v.wf(),
        v.can_move(draw) || draw.stage is Failed,
        in_step(v, draw),
        answers_fit(v, draw, results),
    ensures
        ({
            let (w, d) = after_all(v, draw, results);
            &&& w.wf()
            &&& w.can_move(d) || d.stage is Failed
            &&& in_step(w, d)
            &&& held_fds(w, d).add(all_closed_fds(calls_made(v, draw, results))) == held_fds(
                v,
                draw,
            ).add(all_opened_fds(results))
        }),
    decreases results.len(),
{
    if results.len() == 0 {
        assert(held_fds(v, draw).add(Multiset::<i32>::empty()) =~= held_fds(v, draw));
    } else {
        let front = results.drop_last();
        lemma_descriptors(v, draw, front);
        let (w, d) = after_all(v, draw, front);
        let (x, e) = after(w, d, results.last());
        let call = d.wanted()->0;
        let made = calls_made(v, draw, front);
        law_renderer_stays_whole(w, d, results.last());
        law_descriptors_are_accounted_for(w, d, results.last());
        assert(made.push(call).drop_last() =~= made);
        lemma_accounts_add_up(
            held_fds(v, draw),
            all_opened_fds(front),
            held_fds(w, d),
            all_closed_fds(made),
            opened_fds(results.last()),
            held_fds(x, e),
            closed_fds(call),
        );
    }
}

/// Two accounts that balance, one after the other, balance together.
proof fn lemma_accounts_add_up(
    start: Multiset<i32>,
    opened: Multiset<i32>,
    middle: Multiset<i32>,
    closed: Multiset<i32>,
    more_opened: Multiset<i32>,
    end: Multiset<i32>,
    more_closed: Multiset<i32>,
)
    requires
        middle.add(closed) == start.add(opened),
        end.add(more_closed) == middle.add(more_opened),
    ensures
        end.add(closed.add(more_closed)) == start.add(opened.add(more_opened)),
{
    assert forall|fd: i32| #[trigger] end.count(fd) + closed.count(fd) + more_closed.count(fd)
        == start.count(fd) + opened.count(fd) + more_opened.count(fd) by {
        assert(middle.add(closed).count(fd) == middle.count(fd) + closed.count(fd));
        assert(start.add(opened).count(fd) == start.count(fd) + opened.count(fd));
        assert(end.add(more_closed).count(fd) == end.count(fd) + more_closed.count(fd));
        assert(middle.add(more_opened).count(fd) == middle.count(fd) + more_opened.count(fd));
    }
    assert(end.add(closed.add(more_closed)) =~= start.add(opened.add(more_opened)));
}

/// A device that supports modifiers only for formats that the renderer handles is
/// never settled on a format that it does not handle.
pub proof fn law_negotiated_format_can_be_rendered(
    advertised: Seq<(u32, Vec<u64>)>,
    mods: spec_fn(u32) -> Seq<u64>,
)
    requires
        forall|fourcc: u32|
            vk_format_of(fourcc) == VK_FORMAT_UNDEFINED ==> (#[trigger] mods(fourcc)).len() == 0,
    ensures
        negotiated(advertised, mods) matches Some((fourcc, _)) ==> vk_format_of(fourcc)
            != VK_FORMAT_UNDEFINED,
{
    law_negotiated_is_mutual(advertised, mods);
}

/// A draw and the renderer know the same: the format that the draw goes by is the
/// configured one, the buffer that it renders into, duplicates or hands out is the
/// one in its slot, rendered with the renderer's command buffer and fence, and the
/// buffers have the size of the draw from when it creates or uses one.
pub open spec fn in_agreement(v: RendererView, draw: Draw) -> bool {
    let sized = v.extent == (draw.width, draw.height);
    match draw.stage {
        Stage::Resize => !sized,
        Stage::Release { .. } => sized && v.buffers[0] is None && v.buffers[1] is None,
        Stage::Image { format } => sized && v.format == Some(format),
        Stage::Requirements { format, .. } => sized && v.format == Some(format),
        Stage::Allocate { format, .. } => sized && v.format == Some(format),
        Stage::Bind { format, .. } => sized && v.format == Some(format),
        Stage::ExportMemory { format, .. } => sized && v.format == Some(format),
        Stage::Layout { format, .. } => sized && v.format == Some(format),
        Stage::Pool { format, buffer: _, queue_family } => sized && v.format == Some(format)
            && queue_family == v.queue_family && v.frame is None && v.command_pool == 0,
        Stage::Commands { format, buffer: _, command_pool } => sized && v.format == Some(format)
            && command_pool == v.command_pool && v.frame is None,
        Stage::Fence { format, .. } => sized && v.format == Some(format) && v.frame is None,
        Stage::Render { format, buffer, frame, step: _ } => sized && v.format == Some(format)
            && v.buffers[draw.slot as int] == Some(buffer) && v.frame == Some(frame),
        Stage::Duplicate { format, buffer, sync_fd: _ } => sized && v.format == Some(format)
            && v.buffers[draw.slot as int] == Some(buffer),
        Stage::Finished { format, buffer, .. } => sized && v.format == Some(format)
            && v.buffers[draw.slot as int] == Some(buffer),
        Stage::Abandon { .. } => true,
        Stage::Failed { .. } => true,
    }
}

/// Every draw agrees with the renderer when it starts, and after each answer,
/// whatever it is.
pub proof fn law_draw_agrees_with_the_renderer(
    v: RendererView,
    slot: usize,
    width: u32,
    height: u32,
    draw: Draw,
    result: CallResult,
)
    requires
        v.wf(),
    ensures
        v.accepts(slot) ==> in_agreement(v, v.started(slot, width, height)),
        v.can_move(draw) && in_agreement(v, draw) ==> in_agreement(
            after(v, draw, result).0,
            after(v, draw, result).1,
        ),
        after(v, draw, result).1.slot == draw.slot,
        after(v, draw, result).1.width == draw.width,
        after(v, draw, result).1.height == draw.height,
{
}

/// Whatever has come back so far, a draw agrees with the renderer; so a frame that is
/// handed out is the buffer in its slot, in the configured format, at the size that
/// the draw was started with.
pub proof fn law_draw_agrees_all_the_way(
    v: RendererView,
    slot: usize,
    width: u32,
    height: u32,
    results: Seq<CallResult>,
)
    requires
        v.wf(),
        slot < 2,
    ensures
        ({
            let (w, d) = after_all(v, v.started(slot, width, height), results);
            &&& w.wf()
            &&& d.slot == slot && d.width == width && d.height == height
            &&& in_agreement(w, d)
            &&& d.stage matches Stage::Finished { format, buffer, .. } ==> {
                &&& w.buffers[slot as int] == Some(buffer)
                &&& w.format == Some(format)
                &&& w.extent == (width, height)
            }
        }),
    decreases results.len(),
{
    let draw = v.started(slot, width, height);
    if results.len() == 0 {
        law_draw_agrees_with_the_renderer(v, slot, width, height, draw, Ok(GpuReply::Done));
    } else {
        law_draw_agrees_all_the_way(v, slot, width, height, results.drop_last());
        let (w, d) = after_all(v, draw, results.drop_last());
        law_renderer_stays_whole(w, d, results.last());
        law_draw_agrees_with_the_renderer(w, slot, width, height, d, results.last());
    }
}

/// The plane layout that the device reports is the one that the buffer is described
/// with, whichever way the draw goes on, and the buffer is made of the very image,
/// memory and descriptor that were created for it.
pub proof fn law_buffer_has_the_reported_layout(
    v: RendererView,
    draw: Draw,
    format: BufferFormat,
    image: u64,
    memory: u64,
    fd: i32,
    offset: u64,
    row_pitch: u64,
)
    requires
        v.wf(),
        draw.slot < 2,
        draw.stage == (Stage::Layout { format, image, memory, fd }),
    ensures
        ({
            let (w, d) = after(v, draw, Ok(GpuReply::Layout { offset, row_pitch }));
            let made = |b: DmaBuffer|
                {
                    &&& b.image == image && b.memory == memory && b.fd == fd
                    &&& b.plane.offset == offset && b.plane.stride == row_pitch
                };
            &&& w.extent == (draw.width, draw.height)
            &&& v.frame matches Some(frame) ==> {
                &&& d.stage matches Stage::Render { format: f, buffer, frame: g, step }
                &&& f == format && g == frame && step is Begin
                &&& made(buffer)
                &&& w.buffers[draw.slot as int] == Some(buffer)
                &&& w.buffers[1 - draw.slot] == v.buffers[1 - draw.slot]
            }
            &&& v.frame is None && v.command_pool == 0 ==> {
                &&& d.stage matches Stage::Pool { format: f, buffer, queue_family }
                &&& f == format && queue_family == v.queue_family
                &&& made(buffer)
            }
            &&& v.frame is None && v.command_pool != 0 ==> {
                &&& d.stage matches Stage::Commands { format: f, buffer, command_pool }
                &&& f == format && command_pool == v.command_pool
                &&& made(buffer)
            }
        }),
{
}

/// What the device answers while a buffer is created for a renderer that has its
/// command buffer and fence.
pub open spec fn buffer_answers(a: CreationAnswers) -> Seq<CallResult> {
    seq![
        Ok(GpuReply::Handle(a.image)),
        Ok(
            GpuReply::Requirements {
                size: a.size,
                memory_type_bits: a.memory_type_bits,
                types: a.types,
            },
        ),
        Ok(GpuReply::Handle(a.memory)),
        Ok(GpuReply::Done),
        Ok(GpuReply::Fd(a.fd)),
        Ok(GpuReply::Layout { offset: a.offset, row_pitch: a.row_pitch }),
    ]
}

/// The calls that create a buffer.
pub open spec fn buffer_calls(
    width: u32,
    height: u32,
    format: BufferFormat,
    memory_type_index: u32,
    a: CreationAnswers,
) -> Seq<GpuCall> {
    seq![
        GpuCall::CreateImage {
            width,
            height,
            vk_format: format.vk_format,
            modifier: format.modifier,
        },
        GpuCall::MemoryRequirements { image: a.image },
        GpuCall::AllocateMemory { image: a.image, size: a.size, memory_type_index },
        GpuCall::BindMemory { image: a.image, memory: a.memory },
        GpuCall::ExportMemory { memory: a.memory },
        GpuCall::PlaneLayout { image: a.image },
    ]
}

/// What creating a buffer and rendering into it adds to a draw that has got as far
/// as beginning with it.
proof fn lemma_buffer_creation(
    v: RendererView,
    draw: Draw,
    results: Seq<CallResult>,
    u: RendererView,
    before: Seq<GpuCall>,
    format: BufferFormat,
    frame: FrameData,
    a: CreationAnswers,
    sync_fd: i32,
    fd: i32,
)
    requires
        reached(v, draw, results, u, at(draw, (Stage::Image { format })), before),
        u.frame == Some(frame),
        u.extent == (draw.width, draw.height),
        exportable_memory_type(a.memory_type_bits, a.types) is Some,
    ensures
        reached(
            v,
            draw,
            results + buffer_answers(a) + render_answers(sync_fd, fd),
            u.installed(draw.slot as int, a.buffer(), frame),
            at(draw, (Stage::Finished { format, buffer: a.buffer(), fd, sync_fd })),
            before + buffer_calls(
                draw.width,
                draw.height,
                format,
                exportable_memory_type(a.memory_type_bits, a.types)->0,
                a,
            ) + render_calls(draw.slot, a.buffer(), frame),
        ),
{
    let all = buffer_answers(a);
    let image = a.image;
    let memory = a.memory;
    let buffer = a.buffer();
    let memory_type_index = exportable_memory_type(a.memory_type_bits, a.types)->0;
    let calls = buffer_calls(draw.width, draw.height, format, memory_type_index, a);
    let w = u.installed(draw.slot as int, buffer, frame);
    let d0 = at(draw, Stage::Image { format });
    let d1 = at(draw, Stage::Requirements { format, image });
    let d2 = at(draw, Stage::Allocate { format, image, size: a.size, memory_type_index });
    let d3 = at(draw, Stage::Bind { format, image, memory });
    let d4 = at(draw, Stage::ExportMemory { format, image, memory });
    let d5 = at(draw, Stage::Layout { format, image, memory, fd: a.fd });
    let d6 = at(draw, Stage::Render { format, buffer, frame, step: RenderStep::Begin });
    let r1 = results.push(all[0]);
    let r2 = r1.push(all[1]);
    let r3 = r2.push(all[2]);
    let r4 = r3.push(all[3]);
    let r5 = r4.push(all[4]);
    let r6 = r5.push(all[5]);
    let c1 = before.push(calls[0]);
    let c2 = c1.push(calls[1]);
    let c3 = c2.push(calls[2]);
    let c4 = c3.push(calls[3]);
    let c5 = c4.push(calls[4]);
    let c6 = c5.push(calls[5]);
    lemma_reach(v, draw, results, u, d0, before, calls[0], all[0], u, d1);
    lemma_reach(v, draw, r1, u, d1, c1, calls[1], all[1], u, d2);
    lemma_reach(v, draw, r2, u, d2, c2, calls[2], all[2], u, d3);
    lemma_reach(v, draw, r3, u, d3, c3, calls[3], all[3], u, d4);
    lemma_reach(v, draw, r4, u, d4, c4, calls[4], all[4], u, d5);
    lemma_reach(v, draw, r5, u, d5, c5, calls[5], all[5], w, d6);
    lemma_rendering_reached(v, draw, r6, w, format, buffer, frame, c6, sync_fd, fd);
    assert(results + all =~= r6);
    assert(before + calls =~= c6);
}

/// A slot without a buffer gets one of its own beside the other slot's, for a
/// renderer that has its command buffer and fence: six calls create it, the
/// rendering follows, and the frame describes that very buffer, with the offset and
/// the row pitch that the device reported as its plane's offset and stride. The
/// other slot's buffer stays.
pub proof fn law_empty_slot_gets_its_own_buffer(
    v: RendererView,
    slot: usize,
    width: u32,
    height: u32,
    a: CreationAnswers,
    sync_fd: i32,
    fd: i32,
)
    requires
        v.wf(),
        slot < 2,
        v.extent == (width, height),
        v.format is Some,
        v.frame is Some,
        v.buffers[slot as int] is None,
        exportable_memory_type(a.memory_type_bits, a.types) is Some,
    ensures
        ({
            let draw = v.started(slot, width, height);
            let results = buffer_answers(a) + render_answers(sync_fd, fd);
            let (w, d) = after_all(v, draw, results);
            &&& calls_made(v, draw, results) == buffer_calls(
                width,
                height,
                v.format->0,
                exportable_memory_type(a.memory_type_bits, a.types)->0,
                a,
            ) + render_calls(slot, a.buffer(), v.frame->0)
            &&& d.stage matches Stage::Finished { format, buffer, fd: out, sync_fd: sync }
            &&& format == v.format->0 && out == fd && sync == sync_fd
            &&& buffer.image == a.image && buffer.memory == a.memory && buffer.fd == a.fd
            &&& buffer.plane.offset == a.offset && buffer.plane.stride == a.row_pitch
            &&& w.buffers[slot as int] == Some(buffer)
            &&& w.buffers[1 - slot] == v.buffers[1 - slot]
            &&& w.frame == v.frame && w.extent == v.extent && w.format == v.format
            &&& w.command_pool == v.command_pool
        }),
{
    let draw = v.started(slot, width, height);
    let none = Seq::<CallResult>::empty();
    let format = v.format->0;
    let frame = v.frame->0;
    let calls = buffer_calls(
        width,
        height,
        format,
        exportable_memory_type(a.memory_type_bits, a.types)->0,
        a,
    );
    assert(reached(v, draw, none, v, draw, seq![])) by {
        reveal(reached);
    }
    lemma_buffer_creation(v, draw, none, v, seq![], format, frame, a, sync_fd, fd);
    assert(none + buffer_answers(a) =~= buffer_answers(a));
    assert(seq![] + calls =~= calls);
    reveal(reached);
}

/// After a resize a renderer that has its command buffer and fence waits, releases
/// the buffers of the old size, creates one of the new size for the slot, and the
/// frame describes that very buffer; the other slot has none.
pub proof fn law_resized_slot_gets_a_new_buffer(
    v: RendererView,
    slot: usize,
    width: u32,
    height: u32,
    a: CreationAnswers,
    sync_fd: i32,
    fd: i32,
)
    requires
        v.wf(),
        slot < 2,
        v.extent != (width, height),
        v.format is Some,
        v.frame is Some,
        exportable_memory_type(a.memory_type_bits, a.types) is Some,
    ensures
        ({
            let draw = v.started(slot, width, height);
            let done: CallResult = Ok(GpuReply::Done);
            let results = seq![done, done] + buffer_answers(a) + render_answers(sync_fd, fd);
            let (w, d) = after_all(v, draw, results);
            &&& calls_made(v, draw, results) == seq![
                GpuCall::WaitIdle,
                GpuCall::ReleaseBuffers { first: v.buffers[0], second: v.buffers[1] },
            ] + buffer_calls(
                width,
                height,
                v.format->0,
                exportable_memory_type(a.memory_type_bits, a.types)->0,
                a,
            ) + render_calls(slot, a.buffer(), v.frame->0)
            &&& d.stage matches Stage::Finished { format, buffer, fd: out, sync_fd: sync }
            &&& format == v.format->0 && out == fd && sync == sync_fd
            &&& buffer.image == a.image && buffer.memory == a.memory && buffer.fd == a.fd
            &&& buffer.plane.offset == a.offset && buffer.plane.stride == a.row_pitch
            &&& w.buffers[slot as int] == Some(buffer)
            &&& w.buffers[1 - slot] is None
            &&& w.frame == v.frame && w.extent == (width, height) && w.format == v.format
            &&& w.command_pool == v.command_pool
        }),
{
    let draw = v.started(slot, width, height);
    let done: CallResult = Ok(GpuReply::Done);
    let format = v.format->0;
    let frame = v.frame->0;
    let release = GpuCall::ReleaseBuffers { first: v.buffers[0], second: v.buffers[1] };
    let u = RendererView { extent: (width, height), buffers: seq![None, None], ..v };
    let d1 = at(draw, Stage::Release { first: v.buffers[0], second: v.buffers[1] });
    let d2 = at(draw, Stage::Image { format });
    let none = Seq::<CallResult>::empty();
    let no_calls = Seq::<GpuCall>::empty();
    let waited = no_calls.push(GpuCall::WaitIdle);
    assert(reached(v, draw, none, v, draw, no_calls)) by {
        reveal(reached);
    }
    lemma_reach(v, draw, none, v, draw, no_calls, GpuCall::WaitIdle, done, u, d1);
    lemma_reach(v, draw, none.push(done), u, d1, waited, release, done, u, d2);
    assert(none.push(done).push(done) =~= seq![done, done]);
    assert(waited.push(release) =~= seq![GpuCall::WaitIdle, release]);
    lemma_buffer_creation(
        v,
        draw,
        seq![done, done],
        u,
        seq![GpuCall::WaitIdle, release],
        format,
        frame,
        a,
        sync_fd,
        fd,
    );
    reveal(reached);
}

/// A call that fails is reported in its own words: the message of the draw's error
/// begins with what the call was for and ends with the cause, and the code is kept.
pub proof fn law_failed_call_is_named(v: RendererView, draw: Draw, failure: CallFailure)
    requires
        draw.wanted() is Some,
    ensures
        ({
            let d = after(v, draw, Err(failure)).1;
            let said = |label: Seq<char>|
                exists|error: RenderError|
                    {
                        &&& d.stage == (Stage::Failed { error }) || exists|fd: i32|
                            d.stage == (#[trigger] abandoned(fd, error))
                        &&& error matches RenderError::Call { step, code, cause }
                        &&& step is DuplicateFd <==> draw.wanted()->0 is DuplicateFd
                        &&& code == failure.code && cause == failure.cause
                        &&& #[trigger] error.message_text() == label + ": "@ + failure.cause@
                    };
            match draw.wanted()->0 {
                GpuCall::WaitIdle => said("wait idle on resize"@),
                GpuCall::CreateImage { .. } => said("create drm image"@),
                GpuCall::AllocateMemory { .. } => said("allocate external memory"@),
                GpuCall::BindMemory { .. } => said("bind image memory"@),
                GpuCall::ExportMemory { .. } => said("export dmabuf fd"@),
                GpuCall::CreateCommandPool { .. } => said("create command pool"@),
                GpuCall::AllocateCommandBuffer { .. } => said("allocate command buffer"@),
                GpuCall::CreateFence => said("create frame fence"@),
                GpuCall::BeginCommands { .. } => said("begin command buffer"@),
                GpuCall::EndCommands { .. } => said("end command buffer"@),
                GpuCall::ResetFence { .. } => said("reset fence"@),
                GpuCall::Submit { .. } => said("queue submit2"@),
                GpuCall::ExportFence { .. } => said("export fence fd"@),
                GpuCall::DuplicateFd { .. } => said("dup dmabuf fd"@),
                _ => d == draw,
            }
        }),
{
    let d = after(v, draw, Err(failure)).1;
    let call = draw.wanted()->0;
    if call.step() is Some {
        let error = RenderError::Call {
            step: call.step()->0,
            code: failure.code,
            cause: failure.cause,
        };
        let text = error.message_text();
        if in_hand(draw.stage) is Some {
            assert(d.stage == abandoned(in_hand(draw.stage)->0, error));
        }
    }
}

/// A failed draw whose descriptor in hand is still to be closed.
pub open spec fn abandoned(fd: i32, error: RenderError) -> Stage {
    Stage::Abandon { fd, error }
}

/// Each handled DRM format goes with the Vulkan format of the same memory layout,
/// by their numbers, and no other format with any.
pub proof fn law_vulkan_formats(fourcc: u32)
    ensures
        vk_format_of(fourcc) == 44 <==> fourcc == 0x3432_5258 || fourcc == 0x3432_5241,
        vk_format_of(fourcc) == 37 <==> fourcc == 0x3432_4258 || fourcc == 0x3432_4241,
        vk_format_of(fourcc) == 4 <==> fourcc == 0x3631_4752,
        vk_format_of(fourcc) == 1000156003 <==> fourcc == 0x3231_564e,
        vk_format_of(fourcc) == 0 || vk_format_of(fourcc) == 44 || vk_format_of(fourcc) == 37
            || vk_format_of(fourcc) == 4 || vk_format_of(fourcc) == 1000156003,
{
}

/// Teardown waits first and ends with the device and then the instance. In between
/// go the fence, the buffers of the slots in their order and the command pool, each
/// exactly if it is there, and nothing else.
pub proof fn law_teardown_releases_everything_once(v: RendererView)
    requires
        v.wf(),
    ensures
        ({
            let plan = v.leftovers();
            let f: int = if v.frame is Some { 1 } else { 0 };
            let a: int = if v.buffers[0] is Some { 1 } else { 0 };
            let b: int = if v.buffers[1] is Some { 1 } else { 0 };
            let p: int = if v.command_pool != 0 { 1 } else { 0 };
            &&& plan.len() == 3 + f + a + b + p
            &&& plan[0] == Teardown::WaitIdle
            &&& v.frame matches Some(frame) ==> plan[1] == Teardown::DestroyFence(frame.fence)
            &&& v.buffers[0] matches Some(buffer) ==> plan[1 + f] == Teardown::ReleaseBuffer(
                buffer,
            )
            &&& v.buffers[1] matches Some(buffer) ==> plan[1 + f + a] == Teardown::ReleaseBuffer(
                buffer,
            )
            &&& v.command_pool != 0 ==> plan[1 + f + a + b] == Teardown::DestroyCommandPool(
                v.command_pool,
            )
            &&& plan[plan.len() - 2] == Teardown::DestroyDevice
            &&& plan[plan.len() - 1] == Teardown::DestroyInstance
        }),
{
}

/// An image that no memory type fits ends the draw with that error, and leaves the
/// renderer as it was; one that a type fits gets memory of the size that it needs,
/// of that type.
pub proof fn law_memory_is_asked_for_as_required(
    v: RendererView,
    draw: Draw,
    format: BufferFormat,
    image: u64,
    size: u64,
    memory_type_bits: u32,
    types: MemoryTypes,
)
    requires
        draw.stage == (Stage::Requirements { format, image }),
    ensures
        ({
            let (w, d) = after(
                v,
                draw,
                Ok(GpuReply::Requirements { size, memory_type_bits, types }),
            );
            &&& w == v
            &&& match exportable_memory_type(memory_type_bits, types) {
                None => d.stage == (Stage::Failed { error: RenderError::NoMemoryType }),
                Some(i) => d.wanted() == Some(
                    GpuCall::AllocateMemory { image, size, memory_type_index: i },
                ),
            }
        }),
{
}

/// An answer of another kind than the call gives, a failure of a call that cannot
/// fail, and any answer to a draw that has come to an end change nothing.
pub proof fn law_misplaced_answers_change_nothing(v: RendererView, draw: Draw, result: CallResult)
    requires
        draw.wanted() matches Some(call) ==> !call.can_give(result),
    ensures
        after(v, draw, result) == (v, draw),
{
}

} // verus!
