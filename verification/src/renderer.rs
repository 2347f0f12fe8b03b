//! Building the renderer step by step, and taking it down again.
//!
//! Every object is made from objects made before it, and must be gone before
//! they are. The steps below are in an order that respects this, and whatever
//! has been built, the whole renderer or what a failed step left standing, is
//! taken down in the reverse of the order it was made in.

use vstd::prelude::*;
use crate::error::RendererError;

verus! {

/// A kind of object that the renderer owns. The image views and the
/// framebuffers, of which there is one per swapchain image, each count as one.
#[derive(Clone, Copy, Debug, PartialEq, Eq, Structural)]
pub enum ResourceKind {
    Instance,
    DebugMessenger,
    Surface,
    Device,
    Swapchain,
    ImageViews,
    VertexShader,
    FragmentShader,
    PipelineLayout,
    RenderPass,
    Pipeline,
    Framebuffers,
    CommandPool,
    CommandBuffer,
    ImageAvailable,
    RenderFinished,
    InFlightFence,
}

/// One step of building the renderer.
#[derive(Clone, Copy, Debug, PartialEq, Eq, Structural)]
pub enum Step {
    /// Make the objects of this kind.
    Create(ResourceKind),
    /// Destroy the objects of this kind, which are needed no longer.
    Release(ResourceKind),
    /// See which of the validation layers are installed.
    CheckLayers,
    /// Choose the physical device and its queue families.
    SelectDevice,
}

/// The number of steps, with diagnostics on.
pub const STEP_COUNT: usize = 21;

/// The steps in the order they are taken. Steps 1 and 2 are for diagnostics.
pub open spec fn step_at(i: int) -> Step {
    if i == 0 {
        Step::Create(ResourceKind::Instance)
    } else if i == 1 {
        Step::CheckLayers
    } else if i == 2 {
        Step::Create(ResourceKind::DebugMessenger)
    } else if i == 3 {
        Step::Create(ResourceKind::Surface)
    } else if i == 4 {
        Step::SelectDevice
    } else if i == 5 {
        Step::Create(ResourceKind::Device)
    } else if i == 6 {
        Step::Create(ResourceKind::Swapchain)
    } else if i == 7 {
        Step::Create(ResourceKind::ImageViews)
    } else if i == 8 {
        Step::Create(ResourceKind::VertexShader)
    } else if i == 9 {
        Step::Create(ResourceKind::FragmentShader)
    } else if i == 10 {
        Step::Create(ResourceKind::PipelineLayout)
    } else if i == 11 {
        Step::Create(ResourceKind::RenderPass)
    } else if i == 12 {
        Step::Create(ResourceKind::Pipeline)
    } else if i == 13 {
        Step::Release(ResourceKind::VertexShader)
    } else if i == 14 {
        Step::Release(ResourceKind::FragmentShader)
    } else if i == 15 {
        Step::Create(ResourceKind::Framebuffers)
    } else if i == 16 {
        Step::Create(ResourceKind::CommandPool)
    } else if i == 17 {
        Step::Create(ResourceKind::CommandBuffer)
    } else if i == 18 {
        Step::Create(ResourceKind::ImageAvailable)
    } else if i == 19 {
        Step::Create(ResourceKind::RenderFinished)
    } else {
        Step::Create(ResourceKind::InFlightFence)
    }
}

/// Whether step `i` is left out: the two diagnostics steps are, with
/// diagnostics off.
pub open spec fn skipped(i: int, diagnostics: bool) -> bool {
    !diagnostics && (i == 1 || i == 2)
}

/// The step at which a kind of object is made.
pub open spec fn creation_step(kind: ResourceKind) -> int {
    match kind {
        ResourceKind::Instance => 0,
        ResourceKind::DebugMessenger => 2,
        ResourceKind::Surface => 3,
        ResourceKind::Device => 5,
        ResourceKind::Swapchain => 6,
        ResourceKind::ImageViews => 7,
        ResourceKind::VertexShader => 8,
        ResourceKind::FragmentShader => 9,
        ResourceKind::PipelineLayout => 10,
        ResourceKind::RenderPass => 11,
        ResourceKind::Pipeline => 12,
        ResourceKind::Framebuffers => 15,
        ResourceKind::CommandPool => 16,
        ResourceKind::CommandBuffer => 17,
        ResourceKind::ImageAvailable => 18,
        ResourceKind::RenderFinished => 19,
        ResourceKind::InFlightFence => 20,
    }
}

/// The step at which a kind of object is destroyed while building, for the
/// kinds that are: the shader modules, once the pipeline is made.
pub open spec fn release_step(kind: ResourceKind) -> Option<int> {
    match kind {
        ResourceKind::VertexShader => Some(13int),
        ResourceKind::FragmentShader => Some(14int),
        _ => None,
    }
}

/// Whether the renderer holds objects of `kind` once the first `progress`
/// steps are behind it: they have been made, and not destroyed since.
pub open spec fn held(kind: ResourceKind, progress: int, diagnostics: bool) -> bool {
    &&& creation_step(kind) < progress
    &&& !skipped(creation_step(kind), diagnostics)
    &&& match release_step(kind) {
        Some(released) => progress <= released,
        None => true,
    }
}

/// Whether objects of kind `a` are made from objects of kind `b`, and so must
/// be gone before them.
pub open spec fn depends_on(a: ResourceKind, b: ResourceKind) -> bool {
    match a {
        ResourceKind::Instance => false,
        ResourceKind::DebugMessenger => b == ResourceKind::Instance,
        ResourceKind::Surface => b == ResourceKind::Instance,
        ResourceKind::Device => b == ResourceKind::Instance,
        ResourceKind::Swapchain => b == ResourceKind::Device || b == ResourceKind::Surface,
        ResourceKind::ImageViews => b == ResourceKind::Device || b == ResourceKind::Swapchain,
        ResourceKind::VertexShader => b == ResourceKind::Device,
        ResourceKind::FragmentShader => b == ResourceKind::Device,
        ResourceKind::PipelineLayout => b == ResourceKind::Device,
        ResourceKind::RenderPass => b == ResourceKind::Device,
        ResourceKind::Pipeline => b == ResourceKind::Device || b == ResourceKind::PipelineLayout
            || b == ResourceKind::RenderPass,
        ResourceKind::Framebuffers => b == ResourceKind::Device || b == ResourceKind::RenderPass
            || b == ResourceKind::ImageViews,
        ResourceKind::CommandPool => b == ResourceKind::Device,
        ResourceKind::CommandBuffer => b == ResourceKind::Device || b
            == ResourceKind::CommandPool,
        ResourceKind::ImageAvailable => b == ResourceKind::Device,
        ResourceKind::RenderFinished => b == ResourceKind::Device,
        ResourceKind::InFlightFence => b == ResourceKind::Device,
    }
}

/// Gives the step with the number `i`.
pub fn step_number(i: usize) -> (r: Step)
    requires
        i < STEP_COUNT,
    ensures
        r == step_at(i as int),
{
    match i {
        0 => Step::Create(ResourceKind::Instance),
        1 => Step::CheckLayers,
        2 => Step::Create(ResourceKind::DebugMessenger),
        3 => Step::Create(ResourceKind::Surface),
        4 => Step::SelectDevice,
        5 => Step::Create(ResourceKind::Device),
        6 => Step::Create(ResourceKind::Swapchain),
        7 => Step::Create(ResourceKind::ImageViews),
        8 => Step::Create(ResourceKind::VertexShader),
        9 => Step::Create(ResourceKind::FragmentShader),
        10 => Step::Create(ResourceKind::PipelineLayout),
        11 => Step::Create(ResourceKind::RenderPass),
        12 => Step::Create(ResourceKind::Pipeline),
        13 => Step::Release(ResourceKind::VertexShader),
        14 => Step::Release(ResourceKind::FragmentShader),
        15 => Step::Create(ResourceKind::Framebuffers),
        16 => Step::Create(ResourceKind::CommandPool),
        17 => Step::Create(ResourceKind::CommandBuffer),
        18 => Step::Create(ResourceKind::ImageAvailable),
        19 => Step::Create(ResourceKind::RenderFinished),
        _ => Step::Create(ResourceKind::InFlightFence),
    }
}

/// Every kind of object is made at its creation step and at no other, and the
/// shader modules are released at their release steps.
pub proof fn lemma_steps_and_kinds(i: int, kind: ResourceKind)
    requires
        0 <= i < STEP_COUNT,
    ensures
        step_at(i) == Step::Create(kind) <==> creation_step(kind) == i,
        step_at(i) == Step::Release(kind) <==> release_step(kind) == Some(i),
        0 <= creation_step(kind) < STEP_COUNT,
{
}

/// What depends on something is made after it.
pub proof fn lemma_dependencies_come_first(a: ResourceKind, b: ResourceKind)
    requires
        depends_on(a, b),
    ensures
        creation_step(b) < creation_step(a),
{
}

/// Whatever is needed to make the objects of a step is held when the step is
/// taken.
pub proof fn lemma_made_from_what_is_held(
    i: int,
    kind: ResourceKind,
    needed: ResourceKind,
    diagnostics: bool,
)
    requires
        0 <= i < STEP_COUNT,
        !skipped(i, diagnostics),
        step_at(i) == Step::Create(kind),
        depends_on(kind, needed),
    ensures
        held(needed, i, diagnostics),
{
}

/// Nothing is ever held whose dependencies are not: what an object is made
/// from outlives it at every point of the build.
pub proof fn lemma_held_with_dependencies(
    a: ResourceKind,
    b: ResourceKind,
    progress: int,
    diagnostics: bool,
)
    requires
        held(a, progress, diagnostics),
        depends_on(a, b),
    ensures
        held(b, progress, diagnostics),
{
}

/// `order` lists kinds of objects from the last made to the first made.
pub open spec fn last_made_first(order: Seq<ResourceKind>) -> bool {
    forall|x: int, y: int|
        0 <= x < y < order.len() ==> creation_step(#[trigger] order[x]) > creation_step(
            #[trigger] order[y],
        )
}

/// `order` is the order in which to take down what is held after `progress`
/// steps: everything held and nothing else, the last made first.
pub open spec fn is_teardown(order: Seq<ResourceKind>, progress: int, diagnostics: bool) -> bool {
    &&& last_made_first(order)
    &&& forall|kind: ResourceKind| #[trigger]
        order.contains(kind) <==> held(kind, progress, diagnostics)
}

/// Whether the renderer holds objects of `kind` once the first `progress`
/// steps are behind it.
pub fn is_held(kind: ResourceKind, progress: usize, diagnostics: bool) -> (r: bool)
    ensures
        r == held(kind, progress as int, diagnostics),
{
    let created: usize = match kind {
        ResourceKind::Instance => 0,
        ResourceKind::DebugMessenger => 2,
        ResourceKind::Surface => 3,
        ResourceKind::Device => 5,
        ResourceKind::Swapchain => 6,
        ResourceKind::ImageViews => 7,
        ResourceKind::VertexShader => 8,
        ResourceKind::FragmentShader => 9,
        ResourceKind::PipelineLayout => 10,
        ResourceKind::RenderPass => 11,
        ResourceKind::Pipeline => 12,
        ResourceKind::Framebuffers => 15,
        ResourceKind::CommandPool => 16,
        ResourceKind::CommandBuffer => 17,
        ResourceKind::ImageAvailable => 18,
        ResourceKind::RenderFinished => 19,
        ResourceKind::InFlightFence => 20,
    };
    let released: Option<usize> = match kind {
        ResourceKind::VertexShader => Some(13),
        ResourceKind::FragmentShader => Some(14),
        _ => None,
    };
    let left_out: bool = !diagnostics && (created == 1 || created == 2);
    let still_there: bool = match released {
        Some(at) => progress <= at,
        None => true,
    };
    created < progress && !left_out && still_there
}

/// Lists what is held after `progress` steps in the order to destroy it in:
/// the reverse of the order it was made in.
pub fn teardown_order(progress: usize, diagnostics: bool) -> (order: Vec<ResourceKind>)
    requires
        progress <= STEP_COUNT,
    ensures
        is_teardown(order@, progress as int, diagnostics),
{
    let mut order: Vec<ResourceKind> = Vec::new();
    let mut i: usize = progress;
    while i > 0
        invariant
            i <= progress <= STEP_COUNT,
            last_made_first(order@),
            forall|x: int| 0 <= x < order@.len() ==> creation_step(#[trigger] order@[x]) >= i,
            forall|kind: ResourceKind| #[trigger]
                order@.contains(kind) <==> (held(kind, progress as int, diagnostics)
                    && creation_step(kind) >= i),
        decreases i,
    {
        i -= 1;
        let ghost before = order@;
        match step_number(i) {
            Step::Create(kind) => {
                if is_held(kind, progress, diagnostics) {
                    order.push(kind);
                }
            },
            _ => {},
        }
        assert forall|other: ResourceKind| #[trigger]
            order@.contains(other) <==> (held(other, progress as int, diagnostics)
                && creation_step(other) >= i) by {
            lemma_steps_and_kinds(i as int, other);
            if order@.len() > before.len() {
                assert(order@ == before.push(order@[before.len() as int]));
                if before.contains(other) {
                    let at = choose|at: int| 0 <= at < before.len() && before[at] == other;
                    assert(order@[at] == other);
                }
                if creation_step(other) == i {
                    assert(order@[before.len() as int] == other);
                }
            }
        }
    }
    order
}

/// In a teardown order nothing is destroyed after something it was made
/// from, and nothing is destroyed twice.
pub proof fn lemma_teardown_is_safe(order: Seq<ResourceKind>, x: int, y: int)
    requires
        last_made_first(order),
        0 <= x < y < order.len(),
    ensures
        !depends_on(order[y], order[x]),
        order[x] != order[y],
{
    if depends_on(order[y], order[x]) {
        lemma_dependencies_come_first(order[y], order[x]);
    }
}

/// Two teardown orders of the same build are the same order.
pub proof fn lemma_teardown_is_unique(
    first: Seq<ResourceKind>,
    second: Seq<ResourceKind>,
    progress: int,
    diagnostics: bool,
)
    requires
        is_teardown(first, progress, diagnostics),
        is_teardown(second, progress, diagnostics),
    ensures
        first == second,
{
    assert forall|kind: ResourceKind| first.contains(kind) == second.contains(kind) by {
        assert(first.contains(kind) <==> held(kind, progress, diagnostics));
        assert(second.contains(kind) <==> held(kind, progress, diagnostics));
    }
    lemma_same_kinds_same_order(first, second);
}

/// What is left of an order without its first entry is an order too.
proof fn lemma_rest_is_ordered(order: Seq<ResourceKind>)
    requires
        last_made_first(order),
        order.len() > 0,
    ensures
        last_made_first(order.drop_first()),
        forall|kind: ResourceKind|
            order.drop_first().contains(kind) <==> (order.contains(kind) && kind != order[0]),
{
    let rest = order.drop_first();
    assert forall|x: int, y: int| 0 <= x < y < rest.len() implies creation_step(
        #[trigger] rest[x],
    ) > creation_step(#[trigger] rest[y]) by {
        assert(rest[x] == order[x + 1]);
        assert(rest[y] == order[y + 1]);
    }
    assert forall|kind: ResourceKind|
        rest.contains(kind) <==> (order.contains(kind) && kind != order[0]) by {
        if rest.contains(kind) {
            let k = choose|k: int| 0 <= k < rest.len() && rest[k] == kind;
            assert(order[k + 1] == kind);
            assert(creation_step(order[0]) > creation_step(order[k + 1]));
        }
        if order.contains(kind) && kind != order[0] {
            let m = choose|m: int| 0 <= m < order.len() && order[m] == kind;
            assert(rest[m - 1] == kind);
        }
    }
}

/// Two orders, each from the last made to the first, that list the same
/// kinds are the same order.
proof fn lemma_same_kinds_same_order(first: Seq<ResourceKind>, second: Seq<ResourceKind>)
    requires
        last_made_first(first),
        last_made_first(second),
        forall|kind: ResourceKind| first.contains(kind) == second.contains(kind),
    ensures
        first == second,
    decreases first.len(),
{
    if first.len() == 0 {
        if second.len() > 0 {
            assert(second.contains(second[0]));
            assert(first.contains(second[0]) == second.contains(second[0]));
        }
        assert(first =~= second);
    } else {
        assert(first.contains(first[0]));
        assert(first.contains(first[0]) == second.contains(first[0]));
        let at = choose|at: int| 0 <= at < second.len() && second[at] == first[0];
        assert(second.contains(second[0]));
        assert(first.contains(second[0]) == second.contains(second[0]));
        let back = choose|back: int| 0 <= back < first.len() && first[back] == second[0];
        // Each head was made no earlier than the other, so they are one kind.
        if at > 0 {
            assert(creation_step(second[0]) > creation_step(second[at]));
        }
        if back > 0 {
            assert(creation_step(first[0]) > creation_step(first[back]));
        }
        assert(first[0] == second[0]);
        lemma_rest_is_ordered(first);
        lemma_rest_is_ordered(second);
        assert forall|kind: ResourceKind|
            first.drop_first().contains(kind) == second.drop_first().contains(kind) by {
            assert(first.contains(kind) == second.contains(kind));
        }
        lemma_same_kinds_same_order(first.drop_first(), second.drop_first());
        assert(first =~= seq![first[0]] + first.drop_first());
        assert(second =~= seq![second[0]] + second.drop_first());
    }
}

/// How a step of the build ended.
#[derive(Clone, Copy, Debug, PartialEq, Eq, Structural)]
pub enum StepOutcome {
    Succeeded,
    /// The driver refused, with this raw `VkResult`.
    DriverFailed { code: i32 },
    /// The step was given up for a reason of the renderer's own.
    Refused { error: RendererError },
}

/// What the host is to do next for the build.
#[derive(Clone, Copy, Debug, PartialEq, Eq, Structural)]
pub enum StartupAction {
    /// Take this step and report how it ended.
    Perform { step: Step },
    /// The renderer is built.
    Ready,
    /// The build has failed: take down what stands, and report the error.
    Abort { error: RendererError },
}

/// Whether a build is under way, done, or given up.
#[derive(Clone, Copy, Debug, PartialEq, Eq, Structural)]
pub enum Phase {
    Running,
    Ready,
    Aborted,
}

/// Where the build of a renderer stands.
#[derive(Clone, Copy, Debug, PartialEq, Eq, Structural)]
pub struct Startup {
    pub diagnostics: bool,
    /// The number of the step that is being taken, or that failed; the number
    /// of steps once the renderer is built. The steps before it are behind the
    /// build.
    pub position: usize,
    pub phase: Phase,
}

/// The error for a step that the driver refused.
pub open spec fn driver_error(step: Step, code: i32) -> RendererError {
    match step {
        Step::CheckLayers => RendererError::Initialization { code },
        Step::SelectDevice => RendererError::DeviceEnumeration { code },
        Step::Create(kind) | Step::Release(kind) => match kind {
            ResourceKind::Instance | ResourceKind::DebugMessenger => RendererError::Initialization {
                code,
            },
            ResourceKind::Surface => RendererError::SurfaceCreation { code },
            ResourceKind::Device => RendererError::DeviceCreation { code },
            ResourceKind::Swapchain => RendererError::SwapchainCreation { code },
            ResourceKind::ImageViews => RendererError::ImageViewCreation { code },
            ResourceKind::VertexShader
            | ResourceKind::FragmentShader
            | ResourceKind::PipelineLayout
            | ResourceKind::RenderPass
            | ResourceKind::Pipeline => RendererError::PipelineCreation { code },
            ResourceKind::Framebuffers => RendererError::FramebufferCreation { code },
            ResourceKind::CommandPool
            | ResourceKind::CommandBuffer
            | ResourceKind::ImageAvailable
            | ResourceKind::RenderFinished
            | ResourceKind::InFlightFence => RendererError::CommandSetup { code },
        },
    }
}

/// Names the error for a step that the driver refused.
pub fn error_for(step: Step, code: i32) -> (error: RendererError)
    ensures
        error == driver_error(step, code),
{
    match step {
        Step::CheckLayers => RendererError::Initialization { code },
        Step::SelectDevice => RendererError::DeviceEnumeration { code },
        Step::Create(kind) | Step::Release(kind) => match kind {
            ResourceKind::Instance | ResourceKind::DebugMessenger => RendererError::Initialization {
                code,
            },
            ResourceKind::Surface => RendererError::SurfaceCreation { code },
            ResourceKind::Device => RendererError::DeviceCreation { code },
            ResourceKind::Swapchain => RendererError::SwapchainCreation { code },
            ResourceKind::ImageViews => RendererError::ImageViewCreation { code },
            ResourceKind::VertexShader
            | ResourceKind::FragmentShader
            | ResourceKind::PipelineLayout
            | ResourceKind::RenderPass
            | ResourceKind::Pipeline => RendererError::PipelineCreation { code },
            ResourceKind::Framebuffers => RendererError::FramebufferCreation { code },
            ResourceKind::CommandPool
            | ResourceKind::CommandBuffer
            | ResourceKind::ImageAvailable
            | ResourceKind::RenderFinished
            | ResourceKind::InFlightFence => RendererError::CommandSetup { code },
        },
    }
}

/// The first step at or after `from` that is not left out.
pub open spec fn next_position(from: int, diagnostics: bool) -> int {
    if skipped(from, diagnostics) {
        3
    } else {
        from
    }
}

/// `next_position` gives a step that is not left out, and leaves out only
/// steps that are.
pub proof fn lemma_next_position(from: int, diagnostics: bool)
    ensures
        from <= next_position(from, diagnostics),
        !skipped(next_position(from, diagnostics), diagnostics),
        forall|i: int| from <= i < next_position(from, diagnostics) ==> skipped(i, diagnostics),
{
}

/// The move that the build makes when the step it is at ends with `outcome`.
///
/// A step that succeeds is followed by the next step that is not left out,
/// and the last step by `Ready`. A step that fails ends the build with its
/// error, at that step. A build that is done stays done, and one that is
/// given up stays so.
pub open spec fn startup_transition(state: Startup, outcome: StepOutcome) -> (
    Startup,
    StartupAction,
) {
    match state.phase {
        Phase::Running => match outcome {
            StepOutcome::Succeeded => {
                let next = next_position(state.position + 1, state.diagnostics);
                if next >= STEP_COUNT {
                    (
                        Startup { position: STEP_COUNT, phase: Phase::Ready, ..state },
                        StartupAction::Ready,
                    )
                } else {
                    (
                        Startup { position: next as usize, ..state },
                        StartupAction::Perform { step: step_at(next) },
                    )
                }
            },
            StepOutcome::DriverFailed { code } => (
                Startup { phase: Phase::Aborted, ..state },
                StartupAction::Abort { error: driver_error(step_at(state.position as int), code) },
            ),
            StepOutcome::Refused { error } => (
                Startup { phase: Phase::Aborted, ..state },
                StartupAction::Abort { error },
            ),
        },
        Phase::Ready => (state, StartupAction::Ready),
        Phase::Aborted => (state, StartupAction::Abort { error: RendererError::OutOfTurn }),
    }
}

/// What is to be done to take a renderer down.
#[derive(Debug)]
pub struct ShutdownPlan {
    /// Whether to wait for the frame in flight before anything is destroyed.
    pub wait_for_fence: bool,
    /// What to destroy, in this order.
    pub destroy: Vec<ResourceKind>,
}

impl Startup {
    /// The position is one that the phase allows.
    pub open spec fn well_formed(&self) -> bool {
        match self.phase {
            Phase::Running => self.position < STEP_COUNT && !skipped(
                self.position as int,
                self.diagnostics,
            ),
            Phase::Ready => self.position == STEP_COUNT,
            Phase::Aborted => self.position < STEP_COUNT,
        }
    }

    /// Whether the position is one that the phase allows.
    #[verifier::when_used_as_spec(well_formed)]
    pub fn is_well_formed(&self) -> (r: bool)
        ensures
            r == self.well_formed(),
    {
        match self.phase {
            Phase::Running => self.position < STEP_COUNT && (self.diagnostics || (self.position
                != 1 && self.position != 2)),
            Phase::Ready => self.position == STEP_COUNT,
            Phase::Aborted => self.position < STEP_COUNT,
        }
    }

    /// Starts a build. Its first step makes the instance.
    pub fn begin(diagnostics: bool) -> (r: (Startup, StartupAction))
        ensures
            r.0 == (Startup { diagnostics, position: 0, phase: Phase::Running }),
            r.0.well_formed(),
            r.1 == (StartupAction::Perform { step: step_at(0) }),
    {
        (
            Startup { diagnostics, position: 0, phase: Phase::Running },
            StartupAction::Perform { step: step_number(0) },
        )
    }

    /// Moves the build on when the step it is at has ended.
    pub fn advance(self, outcome: StepOutcome) -> (r: (Startup, StartupAction))
        requires
            self.well_formed(),
        ensures
            r == startup_transition(self, outcome),
            r.0.well_formed(),
    {
        match self.phase {
            Phase::Running => match outcome {
                StepOutcome::Succeeded => {
                    let mut next: usize = self.position + 1;
                    if !self.diagnostics && (next == 1 || next == 2) {
                        next = 3;
                    }
                    if next >= STEP_COUNT {
                        (
                            Startup {
                                diagnostics: self.diagnostics,
                                position: STEP_COUNT,
                                phase: Phase::Ready,
                            },
                            StartupAction::Ready,
                        )
                    } else {
                        (
                            Startup {
                                diagnostics: self.diagnostics,
                                position: next,
                                phase: Phase::Running,
                            },
                            StartupAction::Perform { step: step_number(next) },
                        )
                    }
                },
                StepOutcome::DriverFailed { code } => (
                    Startup {
                        diagnostics: self.diagnostics,
                        position: self.position,
                        phase: Phase::Aborted,
                    },
                    StartupAction::Abort { error: error_for(step_number(self.position), code) },
                ),
                StepOutcome::Refused { error } => (
                    Startup {
                        diagnostics: self.diagnostics,
                        position: self.position,
                        phase: Phase::Aborted,
                    },
                    StartupAction::Abort { error },
                ),
            },
            Phase::Ready => (self, StartupAction::Ready),
            Phase::Aborted => (self, StartupAction::Abort { error: RendererError::OutOfTurn }),
        }
    }

    /// Plans the taking down of whatever the build has put up: the steps
    /// before its position. The fence, where there is one, is waited for
    /// first.
    pub fn shutdown_plan(&self) -> (plan: ShutdownPlan)
        requires
            self.well_formed(),
        ensures
            plan.wait_for_fence == held(
                ResourceKind::InFlightFence,
                self.position as int,
                self.diagnostics,
            ),
            is_teardown(plan.destroy@, self.position as int, self.diagnostics),
    {
        ShutdownPlan {
            wait_for_fence: is_held(ResourceKind::InFlightFence, self.position, self.diagnostics),
            destroy: teardown_order(self.position, self.diagnostics),
        }
    }
}

/// Every step that succeeds takes the build further, so that a build whose
/// steps all succeed is done after no more steps than there are.
pub proof fn lemma_build_moves_on(state: Startup)
    requires
        state.well_formed(),
        state.phase == Phase::Running,
    ensures
        state.position < startup_transition(state, StepOutcome::Succeeded).0.position
            <= STEP_COUNT,
        startup_transition(state, StepOutcome::Succeeded).0.phase != Phase::Aborted,
{
}

/// A build whose steps all succeed is done after its last step and not
/// before, and then holds everything but the shader modules, and the
/// diagnostics messenger only with diagnostics on.
pub proof fn lemma_ready_holds_all(state: Startup, kind: ResourceKind)
    requires
        state.well_formed(),
        state.phase == Phase::Running,
    ensures
        startup_transition(state, StepOutcome::Succeeded).1 == StartupAction::Ready
            <==> state.position == STEP_COUNT - 1,
        held(kind, STEP_COUNT as int, state.diagnostics) <==> (kind != ResourceKind::VertexShader
            && kind != ResourceKind::FragmentShader && (kind == ResourceKind::DebugMessenger
            ==> state.diagnostics)),
{
}

/// A step that fails leaves the build at that step: nothing of the step
/// itself is held, and everything held before it still is.
pub proof fn lemma_failure_keeps_progress(state: Startup, outcome: StepOutcome)
    requires
        state.well_formed(),
        state.phase == Phase::Running,
        outcome != StepOutcome::Succeeded,
    ensures
        startup_transition(state, outcome).0.phase == Phase::Aborted,
        startup_transition(state, outcome).0.position == state.position,
        forall|kind: ResourceKind|
            step_at(state.position as int) == Step::Create(kind) ==> !held(
                kind,
                state.position as int,
                state.diagnostics,
            ),
{
}

} // verus!
