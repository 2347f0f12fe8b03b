//! Drawing one frame: what is recorded, in which order the GPU is asked to do
//! things, and why that order never has the host wait in vain.
//!
//! A frame goes `Idle → Acquiring → Recording → Submitted → Presenting → Idle`.
//! The library decides each move; its host performs the action that comes
//! with it and reports back what happened.

use vstd::prelude::*;
use crate::error::RendererError;
use crate::pipeline::{Pipeline, SyncObjects};
use crate::swapchain::Extent2D;
use crate::vulkan::{
    F32_ONE, F32_ZERO, PIPELINE_BIND_POINT_GRAPHICS, PIPELINE_STAGE_COLOR_ATTACHMENT_OUTPUT,
    SUBPASS_CONTENTS_INLINE, TIMEOUT_NONE,
};

verus! {

/// One command of the frame's command buffer. Floating-point values are given
/// as the bit patterns of their `f32` values, sizes in pixels.
#[derive(Clone, Copy, Debug, PartialEq, Eq, Structural)]
pub enum Command {
    /// Start recording, with the given raw `VkCommandBufferUsageFlags`.
    Begin { usage: u32 },
    /// Enter the render pass on one framebuffer, clearing it to a colour.
    BeginRenderPass {
        render_pass: u64,
        framebuffer: u64,
        offset_x: i32,
        offset_y: i32,
        extent: Extent2D,
        clear_r: u32,
        clear_g: u32,
        clear_b: u32,
        clear_a: u32,
        /// Raw `VkSubpassContents`.
        contents: i32,
    },
    BindPipeline {
        /// Raw `VkPipelineBindPoint`.
        bind_point: i32,
        pipeline: u64,
    },
    /// Set viewport number `first`. The origin and the depths are `f32` bit
    /// patterns, the size is in pixels.
    SetViewport {
        first: u32,
        x: u32,
        y: u32,
        width: u32,
        height: u32,
        min_depth: u32,
        max_depth: u32,
    },
    /// Set scissor number `first`.
    SetScissor { first: u32, offset_x: i32, offset_y: i32, extent: Extent2D },
    Draw { vertex_count: u32, instance_count: u32, first_vertex: u32, first_instance: u32 },
    EndRenderPass,
    End,
}

/// What a frame records: the render pass entered on `framebuffer` and cleared
/// to opaque black, the pipeline bound, viewport and scissor set to the whole
/// swapchain with depth from 0 to 1, and one draw of three vertices.
pub open spec fn recorded_commands(pipeline: Pipeline, framebuffer: u64, extent: Extent2D) -> Seq<
    Command,
> {
    seq![
        Command::Begin { usage: 0 },
        Command::BeginRenderPass {
            render_pass: pipeline.render_pass,
            framebuffer,
            offset_x: 0,
            offset_y: 0,
            extent,
            clear_r: F32_ZERO,
            clear_g: F32_ZERO,
            clear_b: F32_ZERO,
            clear_a: F32_ONE,
            contents: SUBPASS_CONTENTS_INLINE,
        },
        Command::BindPipeline {
            bind_point: PIPELINE_BIND_POINT_GRAPHICS,
            pipeline: pipeline.pipeline,
        },
        Command::SetViewport {
            first: 0,
            x: F32_ZERO,
            y: F32_ZERO,
            width: extent.width,
            height: extent.height,
            min_depth: F32_ZERO,
            max_depth: F32_ONE,
        },
        Command::SetScissor { first: 0, offset_x: 0, offset_y: 0, extent },
        Command::Draw { vertex_count: 3, instance_count: 1, first_vertex: 0, first_instance: 0 },
        Command::EndRenderPass,
        Command::End,
    ]
}

/// Lists the commands of a frame that draws to the swapchain image with the
/// given index. There is no such list for an index without a framebuffer.
pub fn record_command_buffer(
    pipeline: &Pipeline,
    framebuffers: &Vec<u64>,
    extent: Extent2D,
    image_index: u32,
) -> (r: Result<Vec<Command>, RendererError>)
    ensures
        match r {
            Ok(commands) => image_index < framebuffers@.len() && commands@ == recorded_commands(
                *pipeline,
                framebuffers@[image_index as int],
                extent,
            ),
            Err(e) => image_index >= framebuffers@.len() && e
                == (RendererError::ImageIndexOutOfRange { index: image_index }),
        },
{
    if image_index as usize >= framebuffers.len() {
        return Err(RendererError::ImageIndexOutOfRange { index: image_index });
    }
    let framebuffer: u64 = framebuffers[image_index as usize];
    let mut commands: Vec<Command> = Vec::new();
    commands.push(Command::Begin { usage: 0 });
    commands.push(
        Command::BeginRenderPass {
            render_pass: pipeline.render_pass,
            framebuffer,
            offset_x: 0,
            offset_y: 0,
            extent,
            clear_r: F32_ZERO,
            clear_g: F32_ZERO,
            clear_b: F32_ZERO,
            clear_a: F32_ONE,
            contents: SUBPASS_CONTENTS_INLINE,
        },
    );
    commands.push(
        Command::BindPipeline {
            bind_point: PIPELINE_BIND_POINT_GRAPHICS,
            pipeline: pipeline.pipeline,
        },
    );
    commands.push(
        Command::SetViewport {
            first: 0,
            x: F32_ZERO,
            y: F32_ZERO,
            width: extent.width,
            height: extent.height,
            min_depth: F32_ZERO,
            max_depth: F32_ONE,
        },
    );
    commands.push(Command::SetScissor { first: 0, offset_x: 0, offset_y: 0, extent });
    commands.push(
        Command::Draw { vertex_count: 3, instance_count: 1, first_vertex: 0, first_instance: 0 },
    );
    commands.push(Command::EndRenderPass);
    commands.push(Command::End);
    assert(commands@ =~= recorded_commands(*pipeline, framebuffer, extent));
    Ok(commands)
}

/// Where a frame stands.
#[derive(Clone, Copy, Debug, PartialEq, Eq, Structural)]
pub enum FrameState {
    /// No frame is being drawn.
    Idle,
    /// The next image has been asked for.
    Acquiring,
    /// The commands for the image are being recorded.
    Recording { image_index: u32 },
    /// The commands have been handed to the graphics queue.
    Submitted { image_index: u32 },
    /// The image has been handed to the present queue.
    Presenting { image_index: u32 },
}

/// What the host reports to a frame.
#[derive(Clone, Copy, Debug, PartialEq, Eq, Structural)]
pub enum FrameEvent {
    /// A frame is wanted.
    Begin,
    /// The swapchain handed out the image with this index. That the swapchain
    /// no longer suits the surface exactly does not keep the frame from being
    /// drawn.
    ImageAcquired { image_index: u32 },
    /// The last action went through.
    Completed,
    /// The last action failed with this raw `VkResult`.
    Failed { code: i32 },
}

/// What the host is to do next for a frame.
#[derive(Clone, Copy, Debug, PartialEq, Eq, Structural)]
pub enum FrameAction {
    /// Wait for the in-flight fence, reset it, and acquire the next image.
    Acquire,
    /// Reset the command buffer and record the frame's commands into it.
    Record { image_index: u32 },
    /// Submit the command buffer to the graphics queue.
    Submit,
    /// Present the image on the present queue.
    Present { image_index: u32 },
    /// The frame is drawn.
    Finished,
    /// The frame is given up; the error goes to whoever asked for the frame.
    Failed { error: RendererError },
}

/// The move that a frame makes on an event, for a renderer with
/// `framebuffer_count` framebuffers.
///
/// A frame moves forward on the event that its state waits for. A failure
/// ends it with the driver's code; an image index without a framebuffer ends
/// it before anything is recorded; any other event ends it as out of turn.
/// A frame that has ended is idle again.
pub open spec fn frame_transition(state: FrameState, event: FrameEvent, framebuffer_count: nat) -> (
    FrameState,
    FrameAction,
) {
    match (state, event) {
        (FrameState::Idle, FrameEvent::Begin) => (FrameState::Acquiring, FrameAction::Acquire),
        (FrameState::Acquiring, FrameEvent::ImageAcquired { image_index }) => {
            if image_index < framebuffer_count {
                (FrameState::Recording { image_index }, FrameAction::Record { image_index })
            } else {
                (
                    FrameState::Idle,
                    FrameAction::Failed {
                        error: RendererError::ImageIndexOutOfRange { index: image_index },
                    },
                )
            }
        },
        (FrameState::Recording { image_index }, FrameEvent::Completed) => (
            FrameState::Submitted { image_index },
            FrameAction::Submit,
        ),
        (FrameState::Submitted { image_index }, FrameEvent::Completed) => (
            FrameState::Presenting { image_index },
            FrameAction::Present { image_index },
        ),
        (FrameState::Presenting { image_index }, FrameEvent::Completed) => (
            FrameState::Idle,
            FrameAction::Finished,
        ),
        (FrameState::Idle, _) => (
            FrameState::Idle,
            FrameAction::Failed { error: RendererError::OutOfTurn },
        ),
        (_, FrameEvent::Failed { code }) => (
            FrameState::Idle,
            FrameAction::Failed { error: RendererError::FrameSubmission { code } },
        ),
        _ => (
            FrameState::Idle,
            FrameAction::Failed { error: RendererError::OutOfTurn },
        ),
    }
}

/// Moves a frame on an event.
pub fn frame_step(state: FrameState, event: FrameEvent, framebuffer_count: usize) -> (r: (
    FrameState,
    FrameAction,
))
    ensures
        r == frame_transition(state, event, framebuffer_count as nat),
{
    let out_of_turn = (
        FrameState::Idle,
        FrameAction::Failed { error: RendererError::OutOfTurn },
    );
    match state {
        FrameState::Idle => match event {
            FrameEvent::Begin => (FrameState::Acquiring, FrameAction::Acquire),
            _ => out_of_turn,
        },
        FrameState::Acquiring => match event {
            FrameEvent::ImageAcquired { image_index } => {
                if (image_index as usize) < framebuffer_count {
                    (FrameState::Recording { image_index }, FrameAction::Record { image_index })
                } else {
                    (
                        FrameState::Idle,
                        FrameAction::Failed {
                            error: RendererError::ImageIndexOutOfRange { index: image_index },
                        },
                    )
                }
            },
            FrameEvent::Failed { code } => (
                FrameState::Idle,
                FrameAction::Failed { error: RendererError::FrameSubmission { code } },
            ),
            _ => out_of_turn,
        },
        FrameState::Recording { image_index } => match event {
            FrameEvent::Completed => (FrameState::Submitted { image_index }, FrameAction::Submit),
            FrameEvent::Failed { code } => (
                FrameState::Idle,
                FrameAction::Failed { error: RendererError::FrameSubmission { code } },
            ),
            _ => out_of_turn,
        },
        FrameState::Submitted { image_index } => match event {
            FrameEvent::Completed => (
                FrameState::Presenting { image_index },
                FrameAction::Present { image_index },
            ),
            FrameEvent::Failed { code } => (
                FrameState::Idle,
                FrameAction::Failed { error: RendererError::FrameSubmission { code } },
            ),
            _ => out_of_turn,
        },
        FrameState::Presenting { image_index } => match event {
            FrameEvent::Completed => (FrameState::Idle, FrameAction::Finished),
            FrameEvent::Failed { code } => (
                FrameState::Idle,
                FrameAction::Failed { error: RendererError::FrameSubmission { code } },
            ),
            _ => out_of_turn,
        },
    }
}

/// One request to the GPU or its driver.
#[derive(Clone, Copy, Debug, PartialEq, Eq, Structural)]
pub enum FrameOp {
    /// Block until the in-flight fence is signalled.
    WaitForFence,
    /// Put the in-flight fence back to unsignalled.
    ResetFence,
    /// Acquire the next image; "image available" is signalled when it can be
    /// written.
    AcquireImage,
    /// Empty the command buffer.
    ResetCommandBuffer,
    /// Record the frame's commands for the image.
    Record { image_index: u32 },
    /// Submit the command buffer: it waits for "image available", signals
    /// "render finished", and signals the in-flight fence when it is done.
    Submit,
    /// Present the image once "render finished" is signalled.
    Present { image_index: u32 },
}

/// The requests that an action stands for, in the order they are made.
pub open spec fn action_ops(action: FrameAction) -> Seq<FrameOp> {
    match action {
        FrameAction::Acquire => seq![
            FrameOp::WaitForFence,
            FrameOp::ResetFence,
            FrameOp::AcquireImage,
        ],
        FrameAction::Record { image_index } => seq![
            FrameOp::ResetCommandBuffer,
            FrameOp::Record { image_index },
        ],
        FrameAction::Submit => seq![FrameOp::Submit],
        FrameAction::Present { image_index } => seq![FrameOp::Present { image_index }],
        FrameAction::Finished => Seq::<FrameOp>::empty(),
        FrameAction::Failed { error } => Seq::<FrameOp>::empty(),
    }
}

/// Lists the requests that an action stands for.
pub fn operations(action: FrameAction) -> (ops: Vec<FrameOp>)
    ensures
        ops@ == action_ops(action),
{
    let mut ops: Vec<FrameOp> = Vec::new();
    match action {
        FrameAction::Acquire => {
            ops.push(FrameOp::WaitForFence);
            ops.push(FrameOp::ResetFence);
            ops.push(FrameOp::AcquireImage);
        },
        FrameAction::Record { image_index } => {
            ops.push(FrameOp::ResetCommandBuffer);
            ops.push(FrameOp::Record { image_index });
        },
        FrameAction::Submit => {
            ops.push(FrameOp::Submit);
        },
        FrameAction::Present { image_index } => {
            ops.push(FrameOp::Present { image_index });
        },
        FrameAction::Finished => {},
        FrameAction::Failed { error } => {},
    }
    assert(ops@ =~= action_ops(action));
    ops
}

/// What waiting for the in-flight fence is told.
#[derive(Clone, Copy, Debug, PartialEq, Eq, Structural)]
pub struct WaitPlan {
    pub fence: u64,
    pub wait_all: bool,
    /// In nanoseconds.
    pub timeout: u64,
}

/// What acquiring the next image is told.
#[derive(Clone, Copy, Debug, PartialEq, Eq, Structural)]
pub struct AcquirePlan {
    pub swapchain: u64,
    /// In nanoseconds.
    pub timeout: u64,
    /// The semaphore to signal.
    pub semaphore: u64,
    /// The fence to signal, if any.
    pub fence: Option<u64>,
}

/// What submitting the frame's commands is told.
#[derive(Clone, Copy, Debug, PartialEq, Eq, Structural)]
pub struct SubmitPlan {
    pub queue: u64,
    pub wait_semaphore: u64,
    /// The raw pipeline stage at which the wait takes place.
    pub wait_stage: u32,
    pub command_buffer: u64,
    pub signal_semaphore: u64,
    /// The fence to signal when the submission has run.
    pub fence: u64,
}

/// What presenting the image is told.
#[derive(Clone, Copy, Debug, PartialEq, Eq, Structural)]
pub struct PresentPlan {
    pub queue: u64,
    pub wait_semaphore: u64,
    pub swapchain: u64,
    pub image_index: u32,
}

/// Plans the wait for the frame before: on the in-flight fence, for as long
/// as it takes.
pub fn plan_wait(sync: &SyncObjects) -> (plan: WaitPlan)
    ensures
        plan == (WaitPlan { fence: sync.in_flight, wait_all: true, timeout: TIMEOUT_NONE }),
{
    WaitPlan { fence: sync.in_flight, wait_all: true, timeout: TIMEOUT_NONE }
}

/// Plans the acquisition of the next image: for as long as it takes,
/// signalling "image available" and no fence.
pub fn plan_acquire(swapchain: u64, sync: &SyncObjects) -> (plan: AcquirePlan)
    ensures
        plan == (AcquirePlan {
            swapchain,
            timeout: TIMEOUT_NONE,
            semaphore: sync.image_available,
            fence: None,
        }),
{
    AcquirePlan { swapchain, timeout: TIMEOUT_NONE, semaphore: sync.image_available, fence: None }
}

/// Plans the submission to the graphics queue: colour output waits for "image
/// available", the end of the commands signals "render finished", and the
/// in-flight fence is signalled once the submission has left the GPU.
pub fn plan_submit(graphics_queue: u64, command_buffer: u64, sync: &SyncObjects) -> (plan: SubmitPlan)
    ensures
        plan == (SubmitPlan {
            queue: graphics_queue,
            wait_semaphore: sync.image_available,
            wait_stage: PIPELINE_STAGE_COLOR_ATTACHMENT_OUTPUT,
            command_buffer,
            signal_semaphore: sync.render_finished,
            fence: sync.in_flight,
        }),
{
    SubmitPlan {
        queue: graphics_queue,
        wait_semaphore: sync.image_available,
        wait_stage: PIPELINE_STAGE_COLOR_ATTACHMENT_OUTPUT,
        command_buffer,
        signal_semaphore: sync.render_finished,
        fence: sync.in_flight,
    }
}

/// Plans the presentation on the present queue, which waits for "render
/// finished".
pub fn plan_present(
    present_queue: u64,
    swapchain: u64,
    image_index: u32,
    sync: &SyncObjects,
) -> (plan: PresentPlan)
    ensures
        plan == (PresentPlan {
            queue: present_queue,
            wait_semaphore: sync.render_finished,
            swapchain,
            image_index,
        }),
{
    PresentPlan {
        queue: present_queue,
        wait_semaphore: sync.render_finished,
        swapchain,
        image_index,
    }
}

/// A fence as the host can know it.
#[derive(Clone, Copy, Debug, PartialEq, Eq, Structural)]
pub enum FenceState {
    Signaled,
    /// Unsignalled, and nothing under way will signal it.
    Unsignaled,
    /// Unsignalled, and a submission under way will signal it.
    Pending,
}

/// A semaphore: signalled, or about to be by work under way, or neither.
#[derive(Clone, Copy, Debug, PartialEq, Eq, Structural)]
pub enum SemaphoreState {
    Unsignaled,
    Signaled,
}

/// The command buffer's place in its life cycle.
#[derive(Clone, Copy, Debug, PartialEq, Eq, Structural)]
pub enum CommandBufferState {
    /// Nothing is recorded.
    Initial,
    /// Recorded, and not on the GPU.
    Executable,
    /// Submitted, and possibly still running.
    Pending,
}

/// The synchronisation objects and the command buffer, as the protocol sees
/// them.
#[derive(Clone, Copy, Debug, PartialEq, Eq, Structural)]
pub struct SyncState {
    pub in_flight: FenceState,
    pub image_available: SemaphoreState,
    pub render_finished: SemaphoreState,
    pub command_buffer: CommandBufferState,
}

/// What a request does to the objects, or `None` where the request must not
/// be made: a wait on a fence that nothing will signal never returns, and the
/// rest is what Vulkan forbids (resetting a fence that work under way will
/// signal, signalling a semaphore that is signalled, waiting on one that is
/// not, recording or resetting a command buffer that may still be running,
/// submitting one that is not recorded or with a fence that is not
/// unsignalled).
///
/// A wait on a fence that work under way will signal returns when that work
/// has run; the command buffer is then off the GPU.
pub open spec fn apply_op(s: SyncState, op: FrameOp) -> Option<SyncState> {
    match op {
        FrameOp::WaitForFence => match s.in_flight {
            FenceState::Signaled => Some(s),
            FenceState::Pending => Some(
                SyncState {
                    in_flight: FenceState::Signaled,
                    command_buffer: if s.command_buffer == CommandBufferState::Pending {
                        CommandBufferState::Executable
                    } else {
                        s.command_buffer
                    },
                    ..s
                },
            ),
            FenceState::Unsignaled => None,
        },
        FrameOp::ResetFence => if s.in_flight == FenceState::Signaled {
            Some(SyncState { in_flight: FenceState::Unsignaled, ..s })
        } else {
            None
        },
        FrameOp::AcquireImage => if s.image_available == SemaphoreState::Unsignaled {
            Some(SyncState { image_available: SemaphoreState::Signaled, ..s })
        } else {
            None
        },
        FrameOp::ResetCommandBuffer => if s.command_buffer != CommandBufferState::Pending {
            Some(SyncState { command_buffer: CommandBufferState::Initial, ..s })
        } else {
            None
        },
        FrameOp::Record { image_index } => if s.command_buffer == CommandBufferState::Initial {
            Some(SyncState { command_buffer: CommandBufferState::Executable, ..s })
        } else {
            None
        },
        FrameOp::Submit => if s.in_flight == FenceState::Unsignaled && s.image_available
            == SemaphoreState::Signaled && s.render_finished == SemaphoreState::Unsignaled
            && s.command_buffer == CommandBufferState::Executable {
            Some(
                SyncState {
                    in_flight: FenceState::Pending,
                    image_available: SemaphoreState::Unsignaled,
                    render_finished: SemaphoreState::Signaled,
                    command_buffer: CommandBufferState::Pending,
                },
            )
        } else {
            None
        },
        FrameOp::Present { image_index } => if s.render_finished == SemaphoreState::Signaled {
            Some(SyncState { render_finished: SemaphoreState::Unsignaled, ..s })
        } else {
            None
        },
    }
}

/// The objects after `ops` have been made one after the other from `s`, or
/// `None` where one of them must not be made.
pub open spec fn apply_ops(s: SyncState, ops: Seq<FrameOp>) -> Option<SyncState>
    decreases ops.len(),
{
    if ops.len() == 0 {
        Some(s)
    } else {
        match apply_ops(s, ops.drop_last()) {
            Some(before) => apply_op(before, ops.last()),
            None => None,
        }
    }
}

/// The objects as they are created: the fence signalled, the semaphores not,
/// nothing recorded.
pub open spec fn initial_sync() -> SyncState {
    SyncState {
        in_flight: FenceState::Signaled,
        image_available: SemaphoreState::Unsignaled,
        render_finished: SemaphoreState::Unsignaled,
        command_buffer: CommandBufferState::Initial,
    }
}

/// The objects as they are between two frames: the fence is signalled or
/// about to be, both semaphores are unsignalled, and the command buffer is on
/// the GPU only while the fence is still to be signalled.
pub open spec fn between_frames(s: SyncState) -> bool {
    &&& s.in_flight != FenceState::Unsignaled
    &&& s.image_available == SemaphoreState::Unsignaled
    &&& s.render_finished == SemaphoreState::Unsignaled
    &&& s.command_buffer == CommandBufferState::Pending ==> s.in_flight == FenceState::Pending
}

/// All requests of a frame that goes through, in the order they are made.
pub open spec fn frame_ops(image_index: u32) -> Seq<FrameOp> {
    action_ops(FrameAction::Acquire) + action_ops(FrameAction::Record { image_index })
        + action_ops(FrameAction::Submit) + action_ops(FrameAction::Present { image_index })
}

/// All requests of the frames that draw to the images `indices`, one frame
/// after the other.
pub open spec fn frames_ops(indices: Seq<u32>) -> Seq<FrameOp>
    decreases indices.len(),
{
    if indices.len() == 0 {
        Seq::<FrameOp>::empty()
    } else {
        frames_ops(indices.drop_last()) + frame_ops(indices.last())
    }
}

/// Making `first` and then `second` is making `first + second`.
pub proof fn lemma_apply_ops_concat(s: SyncState, first: Seq<FrameOp>, second: Seq<FrameOp>)
    ensures
        apply_ops(s, first + second) == match apply_ops(s, first) {
            Some(middle) => apply_ops(middle, second),
            None => None,
        },
    decreases second.len(),
{
    if second.len() == 0 {
        assert(first + second =~= first);
    } else {
        assert((first + second).drop_last() =~= first + second.drop_last());
        assert((first + second).last() == second.last());
        lemma_apply_ops_concat(s, first, second.drop_last());
    }
}

/// A frame that goes through makes the moves `Idle → Acquiring → Recording →
/// Submitted → Presenting → Idle`, and the actions that come with them stand
/// for the requests of `frame_ops`, in that order.
pub proof fn lemma_frame_moves(image_index: u32, framebuffer_count: nat)
    requires
        image_index < framebuffer_count,
    ensures
        frame_transition(FrameState::Idle, FrameEvent::Begin, framebuffer_count) == (
            FrameState::Acquiring,
            FrameAction::Acquire,
        ),
        frame_transition(
            FrameState::Acquiring,
            FrameEvent::ImageAcquired { image_index },
            framebuffer_count,
        ) == (FrameState::Recording { image_index }, FrameAction::Record { image_index }),
        frame_transition(
            FrameState::Recording { image_index },
            FrameEvent::Completed,
            framebuffer_count,
        ) == (FrameState::Submitted { image_index }, FrameAction::Submit),
        frame_transition(
            FrameState::Submitted { image_index },
            FrameEvent::Completed,
            framebuffer_count,
        ) == (FrameState::Presenting { image_index }, FrameAction::Present { image_index }),
        frame_transition(
            FrameState::Presenting { image_index },
            FrameEvent::Completed,
            framebuffer_count,
        ) == (FrameState::Idle, FrameAction::Finished),
        frame_ops(image_index) == seq![
            FrameOp::WaitForFence,
            FrameOp::ResetFence,
            FrameOp::AcquireImage,
            FrameOp::ResetCommandBuffer,
            FrameOp::Record { image_index },
            FrameOp::Submit,
            FrameOp::Present { image_index },
        ],
{
    assert(frame_ops(image_index) =~= seq![
        FrameOp::WaitForFence,
        FrameOp::ResetFence,
        FrameOp::AcquireImage,
        FrameOp::ResetCommandBuffer,
        FrameOp::Record { image_index },
        FrameOp::Submit,
        FrameOp::Present { image_index },
    ]);
}

/// Every move ends a frame or takes it one state further, and a frame ends
/// idle.
pub proof fn lemma_frame_ends_idle(state: FrameState, event: FrameEvent, framebuffer_count: nat)
    ensures
        ({
            let (next, action) = frame_transition(state, event, framebuffer_count);
            (action is Finished || action is Failed) <==> next == FrameState::Idle
        }),
{
}

/// From objects as they are between two frames, every request of a frame may
/// be made, in order: the wait on the fence returns, and the command buffer is
/// off the GPU before it is reset and recorded. Afterwards the objects are
/// again as they are between two frames.
pub proof fn lemma_frame_keeps_protocol(s: SyncState, image_index: u32)
    requires
        between_frames(s),
    ensures
        apply_ops(s, frame_ops(image_index)) matches Some(after) && between_frames(after),
        apply_ops(s, action_ops(FrameAction::Acquire)) matches Some(acquired)
            && acquired.command_buffer != CommandBufferState::Pending,
{
    let acquire = action_ops(FrameAction::Acquire);
    let record = action_ops(FrameAction::Record { image_index });
    let submit = action_ops(FrameAction::Submit);
    let present = action_ops(FrameAction::Present { image_index });
    lemma_apply_few(s, acquire);
    let s1 = apply_ops(s, acquire)->Some_0;
    lemma_apply_few(s1, record);
    let s2 = apply_ops(s1, record)->Some_0;
    lemma_apply_few(s2, submit);
    let s3 = apply_ops(s2, submit)->Some_0;
    lemma_apply_few(s3, present);
    lemma_apply_ops_concat(s, acquire, record);
    lemma_apply_ops_concat(s, acquire + record, submit);
    lemma_apply_ops_concat(s, acquire + record + submit, present);
}

/// `apply_ops` on up to three requests, written out.
proof fn lemma_apply_few(s: SyncState, ops: Seq<FrameOp>)
    requires
        ops.len() <= 3,
    ensures
        ops.len() == 0 ==> apply_ops(s, ops) == Some(s),
        ops.len() == 1 ==> apply_ops(s, ops) == apply_op(s, ops[0]),
        ops.len() == 2 ==> apply_ops(s, ops) == match apply_op(s, ops[0]) {
            Some(a) => apply_op(a, ops[1]),
            None => None,
        },
        ops.len() == 3 ==> apply_ops(s, ops) == match apply_op(s, ops[0]) {
            Some(a) => match apply_op(a, ops[1]) {
                Some(b) => apply_op(b, ops[2]),
                None => None,
            },
            None => None,
        },
    decreases ops.len(),
{
    if ops.len() > 0 {
        lemma_apply_few(s, ops.drop_last());
        assert(ops.drop_last().len() == ops.len() - 1);
        if ops.len() >= 2 {
            assert(ops.drop_last()[0] == ops[0]);
        }
        if ops.len() == 3 {
            assert(ops.drop_last()[1] == ops[1]);
        }
    }
}

/// However many frames are drawn, one after the other and each going
/// through, no request is made that must not be: the host never waits on a
/// fence that nothing will signal, and never touches the command buffer while
/// the frame before may still be running.
pub proof fn lemma_frames_never_block(indices: Seq<u32>)
    ensures
        apply_ops(initial_sync(), frames_ops(indices)) matches Some(after) && between_frames(after),
    decreases indices.len(),
{
    if indices.len() > 0 {
        lemma_frames_never_block(indices.drop_last());
        let before = apply_ops(initial_sync(), frames_ops(indices.drop_last()))->Some_0;
        lemma_frame_keeps_protocol(before, indices.last());
        lemma_apply_ops_concat(
            initial_sync(),
            frames_ops(indices.drop_last()),
            frame_ops(indices.last()),
        );
    }
}

} // verus!
