use ash::vk;
use vk_renderer::error::RendererError;
use vk_renderer::frame::{
    frame_step, operations, plan_acquire, plan_present, plan_submit, plan_wait,
    record_command_buffer, Command, FrameAction, FrameEvent, FrameOp, FrameState,
};
use vk_renderer::pipeline::{Pipeline, SyncObjects};
use vk_renderer::swapchain::Extent2D;

const PIPELINE: Pipeline = Pipeline { layout: 7, pipeline: 8, render_pass: 9 };
const EXTENT: Extent2D = Extent2D { width: 800, height: 600 };
const SYNC: SyncObjects = SyncObjects { image_available: 31, render_finished: 32, in_flight: 33 };

#[test]
fn a_frame_records_one_triangle() {
    let commands = record_command_buffer(&PIPELINE, &vec![100, 101, 102], EXTENT, 1).unwrap();
    assert_eq!(
        commands,
        vec![
            Command::Begin { usage: 0 },
            Command::BeginRenderPass {
                render_pass: 9,
                framebuffer: 101,
                offset_x: 0,
                offset_y: 0,
                extent: EXTENT,
                clear_r: 0.0f32.to_bits(),
                clear_g: 0.0f32.to_bits(),
                clear_b: 0.0f32.to_bits(),
                clear_a: 1.0f32.to_bits(),
                contents: vk::SubpassContents::INLINE.as_raw(),
            },
            Command::BindPipeline {
                bind_point: vk::PipelineBindPoint::GRAPHICS.as_raw(),
                pipeline: 8,
            },
            Command::SetViewport {
                first: 0,
                x: 0.0f32.to_bits(),
                y: 0.0f32.to_bits(),
                width: 800,
                height: 600,
                min_depth: 0.0f32.to_bits(),
                max_depth: 1.0f32.to_bits(),
            },
            Command::SetScissor { first: 0, offset_x: 0, offset_y: 0, extent: EXTENT },
            Command::Draw { vertex_count: 3, instance_count: 1, first_vertex: 0, first_instance: 0 },
            Command::EndRenderPass,
            Command::End,
        ]
    );
}

#[test]
fn recording_uses_the_framebuffer_of_the_image() {
    for index in 0..3u32 {
        let commands =
            record_command_buffer(&PIPELINE, &vec![100, 101, 102], EXTENT, index).unwrap();
        match commands[1] {
            Command::BeginRenderPass { framebuffer, .. } => {
                assert_eq!(framebuffer, 100 + index as u64)
            }
            _ => panic!("the render pass is entered second"),
        }
    }
}

#[test]
fn recording_fails_without_a_framebuffer() {
    assert_eq!(
        record_command_buffer(&PIPELINE, &vec![100, 101], EXTENT, 2),
        Err(RendererError::ImageIndexOutOfRange { index: 2 })
    );
    assert_eq!(
        record_command_buffer(&PIPELINE, &Vec::new(), EXTENT, 0),
        Err(RendererError::ImageIndexOutOfRange { index: 0 })
    );
    assert_eq!(
        record_command_buffer(&PIPELINE, &vec![100], EXTENT, u32::MAX),
        Err(RendererError::ImageIndexOutOfRange { index: u32::MAX })
    );
}

#[test]
fn a_frame_goes_through_its_states() {
    let (state, action) = frame_step(FrameState::Idle, FrameEvent::Begin, 3);
    assert_eq!((state, action), (FrameState::Acquiring, FrameAction::Acquire));
    let (state, action) = frame_step(state, FrameEvent::ImageAcquired { image_index: 2 }, 3);
    assert_eq!(
        (state, action),
        (FrameState::Recording { image_index: 2 }, FrameAction::Record { image_index: 2 })
    );
    let (state, action) = frame_step(state, FrameEvent::Completed, 3);
    assert_eq!((state, action), (FrameState::Submitted { image_index: 2 }, FrameAction::Submit));
    let (state, action) = frame_step(state, FrameEvent::Completed, 3);
    assert_eq!(
        (state, action),
        (FrameState::Presenting { image_index: 2 }, FrameAction::Present { image_index: 2 })
    );
    let (state, action) = frame_step(state, FrameEvent::Completed, 3);
    assert_eq!((state, action), (FrameState::Idle, FrameAction::Finished));
}

fn draw(framebuffer_count: usize, image_index: u32) -> Vec<FrameOp> {
    let mut ops = Vec::new();
    let (mut state, mut action) = frame_step(FrameState::Idle, FrameEvent::Begin, framebuffer_count);
    loop {
        ops.extend(operations(action));
        let event = match action {
            FrameAction::Acquire => FrameEvent::ImageAcquired { image_index },
            FrameAction::Finished => break,
            FrameAction::Failed { error } => panic!("the frame failed: {:?}", error),
            _ => FrameEvent::Completed,
        };
        (state, action) = frame_step(state, event, framebuffer_count);
    }
    assert_eq!(state, FrameState::Idle);
    ops
}

#[test]
fn a_frame_makes_its_requests_in_order() {
    assert_eq!(
        draw(3, 1),
        vec![
            FrameOp::WaitForFence,
            FrameOp::ResetFence,
            FrameOp::AcquireImage,
            FrameOp::ResetCommandBuffer,
            FrameOp::Record { image_index: 1 },
            FrameOp::Submit,
            FrameOp::Present { image_index: 1 },
        ]
    );
}

/// The in-flight fence and the command buffer, as a driver would track them.
struct Gpu {
    fence_signaled: bool,
    submission_running: bool,
    image_available: bool,
    render_finished: bool,
    recorded: bool,
}

impl Gpu {
    fn apply(&mut self, op: FrameOp) {
        match op {
            FrameOp::WaitForFence => {
                assert!(self.fence_signaled || self.submission_running, "the wait never returns");
                self.fence_signaled = true;
                self.submission_running = false;
            }
            FrameOp::ResetFence => {
                assert!(self.fence_signaled && !self.submission_running);
                self.fence_signaled = false;
            }
            FrameOp::AcquireImage => {
                assert!(!self.image_available);
                self.image_available = true;
            }
            FrameOp::ResetCommandBuffer => {
                assert!(!self.submission_running, "the command buffer is still in use");
                self.recorded = false;
            }
            FrameOp::Record { .. } => {
                assert!(!self.submission_running && !self.recorded);
                self.recorded = true;
            }
            FrameOp::Submit => {
                assert!(self.recorded && self.image_available);
                assert!(!self.fence_signaled && !self.render_finished);
                self.image_available = false;
                self.render_finished = true;
                self.submission_running = true;
            }
            FrameOp::Present { .. } => {
                assert!(self.render_finished);
                self.render_finished = false;
            }
        }
    }
}

#[test]
fn repeated_frames_never_wait_in_vain() {
    let mut gpu = Gpu {
        fence_signaled: true,
        submission_running: false,
        image_available: false,
        render_finished: false,
        recorded: false,
    };
    for frame in 0..50u32 {
        for op in draw(3, frame % 3) {
            gpu.apply(op);
        }
    }
}

#[test]
fn an_image_without_framebuffer_ends_the_frame() {
    let (state, action) =
        frame_step(FrameState::Acquiring, FrameEvent::ImageAcquired { image_index: 3 }, 3);
    assert_eq!(state, FrameState::Idle);
    assert_eq!(
        action,
        FrameAction::Failed { error: RendererError::ImageIndexOutOfRange { index: 3 } }
    );
    let (_, action) =
        frame_step(FrameState::Acquiring, FrameEvent::ImageAcquired { image_index: 0 }, 0);
    assert_eq!(
        action,
        FrameAction::Failed { error: RendererError::ImageIndexOutOfRange { index: 0 } }
    );
}

#[test]
fn a_failure_ends_the_frame_with_the_drivers_code() {
    let states = [
        FrameState::Acquiring,
        FrameState::Recording { image_index: 1 },
        FrameState::Submitted { image_index: 1 },
        FrameState::Presenting { image_index: 1 },
    ];
    for state in states {
        let (next, action) = frame_step(state, FrameEvent::Failed { code: -4 }, 3);
        assert_eq!(next, FrameState::Idle);
        assert_eq!(
            action,
            FrameAction::Failed { error: RendererError::FrameSubmission { code: -4 } }
        );
    }
}

#[test]
fn an_event_out_of_turn_ends_the_frame() {
    let out_of_turn = FrameAction::Failed { error: RendererError::OutOfTurn };
    assert_eq!(frame_step(FrameState::Idle, FrameEvent::Completed, 3).1, out_of_turn);
    assert_eq!(frame_step(FrameState::Idle, FrameEvent::Failed { code: -4 }, 3).1, out_of_turn);
    assert_eq!(
        frame_step(FrameState::Idle, FrameEvent::ImageAcquired { image_index: 0 }, 3).1,
        out_of_turn
    );
    assert_eq!(frame_step(FrameState::Acquiring, FrameEvent::Begin, 3).1, out_of_turn);
    assert_eq!(frame_step(FrameState::Acquiring, FrameEvent::Completed, 3).1, out_of_turn);
    let recording = FrameState::Recording { image_index: 0 };
    assert_eq!(frame_step(recording, FrameEvent::Begin, 3).1, out_of_turn);
    assert_eq!(
        frame_step(recording, FrameEvent::ImageAcquired { image_index: 0 }, 3),
        (FrameState::Idle, out_of_turn)
    );
    let submitted = FrameState::Submitted { image_index: 0 };
    assert_eq!(frame_step(submitted, FrameEvent::Begin, 3), (FrameState::Idle, out_of_turn));
    let presenting = FrameState::Presenting { image_index: 0 };
    assert_eq!(frame_step(presenting, FrameEvent::Begin, 3), (FrameState::Idle, out_of_turn));
}

#[test]
fn actions_stand_for_their_requests() {
    assert_eq!(
        operations(FrameAction::Acquire),
        vec![FrameOp::WaitForFence, FrameOp::ResetFence, FrameOp::AcquireImage]
    );
    assert_eq!(
        operations(FrameAction::Record { image_index: 4 }),
        vec![FrameOp::ResetCommandBuffer, FrameOp::Record { image_index: 4 }]
    );
    assert_eq!(operations(FrameAction::Submit), vec![FrameOp::Submit]);
    assert_eq!(
        operations(FrameAction::Present { image_index: 4 }),
        vec![FrameOp::Present { image_index: 4 }]
    );
    assert!(operations(FrameAction::Finished).is_empty());
    assert!(operations(FrameAction::Failed { error: RendererError::OutOfTurn }).is_empty());
}

#[test]
fn waits_have_no_timeout() {
    let wait = plan_wait(&SYNC);
    assert_eq!(wait.fence, 33);
    assert!(wait.wait_all);
    assert_eq!(wait.timeout, u64::MAX);
    let acquire = plan_acquire(5, &SYNC);
    assert_eq!(acquire.swapchain, 5);
    assert_eq!(acquire.timeout, u64::MAX);
    assert_eq!(acquire.semaphore, 31);
    assert_eq!(acquire.fence, None);
}

#[test]
fn submission_is_ordered_by_the_semaphores() {
    let submit = plan_submit(61, 71, &SYNC);
    assert_eq!(submit.queue, 61);
    assert_eq!(submit.command_buffer, 71);
    assert_eq!(submit.wait_semaphore, 31);
    assert_eq!(submit.wait_stage, vk::PipelineStageFlags::COLOR_ATTACHMENT_OUTPUT.as_raw());
    assert_eq!(submit.signal_semaphore, 32);
    assert_eq!(submit.fence, 33);
    let present = plan_present(62, 5, 2, &SYNC);
    assert_eq!(present.queue, 62);
    assert_eq!(present.wait_semaphore, 32);
    assert_eq!(present.swapchain, 5);
    assert_eq!(present.image_index, 2);
}
