//! The fixed graphics pipeline, the render pass it draws in, and the objects
//! made around them: framebuffers, command pool and buffer, and the
//! synchronisation objects.

use vstd::prelude::*;
use vstd::string::*;
use crate::device::QueueFamilies;
use crate::error::RendererError;
use crate::swapchain::{Extent2D, SwapChain};
use crate::vulkan::{
    ACCESS_COLOR_ATTACHMENT_WRITE, BLEND_FACTOR_ONE, BLEND_FACTOR_ZERO, BLEND_OP_ADD,
    COLOR_COMPONENT_A, COLOR_COMPONENT_B, COLOR_COMPONENT_G, COLOR_COMPONENT_R,
    COLOR_COMPONENT_RGBA, COMMAND_BUFFER_LEVEL_PRIMARY, COMMAND_POOL_RESET_COMMAND_BUFFER,
    CULL_MODE_BACK, DYNAMIC_STATE_SCISSOR, DYNAMIC_STATE_VIEWPORT, F32_ONE, F32_ZERO,
    FENCE_CREATE_SIGNALED, FRONT_FACE_CLOCKWISE, IMAGE_LAYOUT_COLOR_ATTACHMENT_OPTIMAL,
    IMAGE_LAYOUT_PRESENT_SRC, IMAGE_LAYOUT_UNDEFINED, LOAD_OP_CLEAR, LOAD_OP_DONT_CARE,
    LOGIC_OP_COPY, PIPELINE_BIND_POINT_GRAPHICS, PIPELINE_STAGE_COLOR_ATTACHMENT_OUTPUT,
    POLYGON_MODE_FILL, SAMPLE_COUNT_1, SHADER_STAGE_FRAGMENT, SHADER_STAGE_VERTEX,
    STORE_OP_DONT_CARE, STORE_OP_STORE, SUBPASS_EXTERNAL, TOPOLOGY_TRIANGLE_LIST,
};

verus! {

/// One attachment of a render pass. Operations and layouts are raw Vulkan
/// enumerants.
#[derive(Clone, Copy, Debug, PartialEq, Eq, Structural)]
pub struct AttachmentDescription {
    pub format: i32,
    pub samples: u32,
    pub load_op: i32,
    pub store_op: i32,
    pub stencil_load_op: i32,
    pub stencil_store_op: i32,
    pub initial_layout: i32,
    pub final_layout: i32,
}

/// A subpass's use of an attachment.
#[derive(Clone, Copy, Debug, PartialEq, Eq, Structural)]
pub struct AttachmentReference {
    pub attachment: u32,
    pub layout: i32,
}

/// A subpass with a single colour attachment and nothing else.
#[derive(Clone, Copy, Debug, PartialEq, Eq, Structural)]
pub struct SubpassDescription {
    pub pipeline_bind_point: i32,
    pub color_attachment: AttachmentReference,
}

/// What one subpass waits for in another. Stages and accesses are raw masks.
#[derive(Clone, Copy, Debug, PartialEq, Eq, Structural)]
pub struct SubpassDependency {
    pub src_subpass: u32,
    pub dst_subpass: u32,
    pub src_stage_mask: u32,
    pub src_access_mask: u32,
    pub dst_stage_mask: u32,
    pub dst_access_mask: u32,
}

/// A render pass of one attachment, one subpass and one dependency.
#[derive(Clone, Copy, Debug, PartialEq, Eq, Structural)]
pub struct RenderPassPlan {
    pub attachment: AttachmentDescription,
    pub subpass: SubpassDescription,
    pub dependency: SubpassDependency,
}

/// The render pass that draws to images of `format`: the image is cleared on
/// entry and kept on exit, comes in any layout and leaves ready to present;
/// the one graphics subpass writes it as its colour attachment; and colour
/// output waits for whatever came before the pass, so that nothing is written
/// before the image has been acquired.
pub open spec fn planned_render_pass(format: i32) -> RenderPassPlan {
    RenderPassPlan {
        attachment: AttachmentDescription {
            format,
            samples: SAMPLE_COUNT_1,
            load_op: LOAD_OP_CLEAR,
            store_op: STORE_OP_STORE,
            stencil_load_op: LOAD_OP_DONT_CARE,
            stencil_store_op: STORE_OP_DONT_CARE,
            initial_layout: IMAGE_LAYOUT_UNDEFINED,
            final_layout: IMAGE_LAYOUT_PRESENT_SRC,
        },
        subpass: SubpassDescription {
            pipeline_bind_point: PIPELINE_BIND_POINT_GRAPHICS,
            color_attachment: AttachmentReference {
                attachment: 0,
                layout: IMAGE_LAYOUT_COLOR_ATTACHMENT_OPTIMAL,
            },
        },
        dependency: SubpassDependency {
            src_subpass: SUBPASS_EXTERNAL,
            dst_subpass: 0,
            src_stage_mask: PIPELINE_STAGE_COLOR_ATTACHMENT_OUTPUT,
            src_access_mask: 0,
            dst_stage_mask: PIPELINE_STAGE_COLOR_ATTACHMENT_OUTPUT,
            dst_access_mask: ACCESS_COLOR_ATTACHMENT_WRITE,
        },
    }
}

/// Plans the render pass for a swapchain; its attachment has the format of
/// the swapchain's images.
pub fn plan_render_pass(swapchain: &SwapChain) -> (plan: RenderPassPlan)
    ensures
        plan == planned_render_pass(swapchain.format),
        plan.attachment.format == swapchain.format,
{
    RenderPassPlan {
        attachment: AttachmentDescription {
            format: swapchain.format,
            samples: SAMPLE_COUNT_1,
            load_op: LOAD_OP_CLEAR,
            store_op: STORE_OP_STORE,
            stencil_load_op: LOAD_OP_DONT_CARE,
            stencil_store_op: STORE_OP_DONT_CARE,
            initial_layout: IMAGE_LAYOUT_UNDEFINED,
            final_layout: IMAGE_LAYOUT_PRESENT_SRC,
        },
        subpass: SubpassDescription {
            pipeline_bind_point: PIPELINE_BIND_POINT_GRAPHICS,
            color_attachment: AttachmentReference {
                attachment: 0,
                layout: IMAGE_LAYOUT_COLOR_ATTACHMENT_OPTIMAL,
            },
        },
        dependency: SubpassDependency {
            src_subpass: SUBPASS_EXTERNAL,
            dst_subpass: 0,
            src_stage_mask: PIPELINE_STAGE_COLOR_ATTACHMENT_OUTPUT,
            src_access_mask: 0,
            dst_stage_mask: PIPELINE_STAGE_COLOR_ATTACHMENT_OUTPUT,
            dst_access_mask: ACCESS_COLOR_ATTACHMENT_WRITE,
        },
    }
}

/// One programmable stage: which stage it is, as a raw bit, and the shader
/// module that holds its code.
#[derive(Clone, Copy, Debug, PartialEq, Eq, Structural)]
pub struct ShaderStage {
    pub stage: u32,
    pub module: u64,
}

/// How vertices are put together into primitives.
#[derive(Clone, Copy, Debug, PartialEq, Eq, Structural)]
pub struct InputAssembly {
    /// Raw `VkPrimitiveTopology`.
    pub topology: i32,
    pub primitive_restart: bool,
}

/// How primitives become fragments. The floating-point settings are given as
/// the bit patterns of their `f32` values.
#[derive(Clone, Copy, Debug, PartialEq, Eq, Structural)]
pub struct Rasterization {
    pub depth_clamp: bool,
    pub rasterizer_discard: bool,
    /// Raw `VkPolygonMode`.
    pub polygon_mode: i32,
    pub line_width: u32,
    /// Raw `VkCullModeFlags`.
    pub cull_mode: u32,
    /// Raw `VkFrontFace`.
    pub front_face: i32,
    pub depth_bias: bool,
    pub depth_bias_constant_factor: u32,
    pub depth_bias_clamp: u32,
    pub depth_bias_slope_factor: u32,
}

/// How many samples a pixel has and what is done with them.
#[derive(Clone, Copy, Debug, PartialEq, Eq, Structural)]
pub struct Multisampling {
    pub sample_shading: bool,
    /// Raw `VkSampleCountFlagBits`.
    pub rasterization_samples: u32,
    /// The bit pattern of an `f32`.
    pub min_sample_shading: u32,
    pub alpha_to_coverage: bool,
    pub alpha_to_one: bool,
}

/// How a fragment's colour meets the colour already in the attachment.
/// Factors and operations are raw Vulkan enumerants.
#[derive(Clone, Copy, Debug, PartialEq, Eq, Structural)]
pub struct ColorBlendAttachment {
    /// Raw `VkColorComponentFlags`.
    pub color_write_mask: u32,
    pub blend: bool,
    pub src_color_blend_factor: i32,
    pub dst_color_blend_factor: i32,
    pub color_blend_op: i32,
    pub src_alpha_blend_factor: i32,
    pub dst_alpha_blend_factor: i32,
    pub alpha_blend_op: i32,
}

/// Blending for a pipeline with a single colour attachment.
#[derive(Clone, Copy, Debug, PartialEq, Eq, Structural)]
pub struct ColorBlending {
    pub logic_op_enabled: bool,
    /// Raw `VkLogicOp`.
    pub logic_op: i32,
    pub attachment: ColorBlendAttachment,
    /// The four blend constants, each the bit pattern of an `f32`.
    pub blend_constant_r: u32,
    pub blend_constant_g: u32,
    pub blend_constant_b: u32,
    pub blend_constant_a: u32,
}

/// What a pipeline layout declares.
#[derive(Clone, Copy, Debug, PartialEq, Eq, Structural)]
pub struct PipelineLayoutPlan {
    pub set_layout_count: u32,
    pub push_constant_range_count: u32,
}

/// Everything that creating the graphics pipeline is told, but for the name
/// of the shaders' entry point and the list of dynamic states, which
/// `shader_entry_point` and `dynamic_states` give.
#[derive(Clone, Copy, Debug, PartialEq, Eq, Structural)]
pub struct GraphicsPipelinePlan {
    pub vertex_stage: ShaderStage,
    pub fragment_stage: ShaderStage,
    pub vertex_binding_count: u32,
    pub vertex_attribute_count: u32,
    pub input_assembly: InputAssembly,
    pub viewport_count: u32,
    pub scissor_count: u32,
    pub rasterization: Rasterization,
    pub multisampling: Multisampling,
    pub depth_stencil: bool,
    pub color_blending: ColorBlending,
    /// The pipeline layout's handle.
    pub layout: u64,
    /// The render pass's handle.
    pub render_pass: u64,
    pub subpass: u32,
    /// The pipeline to derive from, if any.
    pub base_pipeline: Option<u64>,
    pub base_pipeline_index: i32,
}

/// The layout of a pipeline that takes no descriptor sets and no push
/// constants.
pub open spec fn planned_pipeline_layout() -> PipelineLayoutPlan {
    PipelineLayoutPlan { set_layout_count: 0, push_constant_range_count: 0 }
}

/// Plans the pipeline's layout.
pub fn plan_pipeline_layout() -> (plan: PipelineLayoutPlan)
    ensures
        plan == planned_pipeline_layout(),
{
    PipelineLayoutPlan { set_layout_count: 0, push_constant_range_count: 0 }
}

/// Filled polygons, back faces dropped, front faces wound clockwise, lines one
/// pixel wide, no depth bias.
pub open spec fn planned_rasterization() -> Rasterization {
    Rasterization {
        depth_clamp: false,
        rasterizer_discard: false,
        polygon_mode: POLYGON_MODE_FILL,
        line_width: F32_ONE,
        cull_mode: CULL_MODE_BACK,
        front_face: FRONT_FACE_CLOCKWISE,
        depth_bias: false,
        depth_bias_constant_factor: F32_ZERO,
        depth_bias_clamp: F32_ZERO,
        depth_bias_slope_factor: F32_ZERO,
    }
}

/// One sample per pixel, and nothing done with alpha.
pub open spec fn planned_multisampling() -> Multisampling {
    Multisampling {
        sample_shading: false,
        rasterization_samples: SAMPLE_COUNT_1,
        min_sample_shading: F32_ONE,
        alpha_to_coverage: false,
        alpha_to_one: false,
    }
}

/// No blending: the fragment's colour replaces what is there, in all four
/// components.
pub open spec fn planned_color_blending() -> ColorBlending {
    ColorBlending {
        logic_op_enabled: false,
        logic_op: LOGIC_OP_COPY,
        attachment: ColorBlendAttachment {
            color_write_mask: COLOR_COMPONENT_RGBA,
            blend: false,
            src_color_blend_factor: BLEND_FACTOR_ONE,
            dst_color_blend_factor: BLEND_FACTOR_ZERO,
            color_blend_op: BLEND_OP_ADD,
            src_alpha_blend_factor: BLEND_FACTOR_ONE,
            dst_alpha_blend_factor: BLEND_FACTOR_ZERO,
            alpha_blend_op: BLEND_OP_ADD,
        },
        blend_constant_r: F32_ZERO,
        blend_constant_g: F32_ZERO,
        blend_constant_b: F32_ZERO,
        blend_constant_a: F32_ZERO,
    }
}

/// The triangle pipeline: a vertex and a fragment stage, no vertex input (the
/// vertex stage makes up its vertices), triangle lists without restart, one
/// viewport and one scissor, no depth or stencil test, in subpass 0 of the
/// render pass, derived from no other pipeline.
pub open spec fn planned_pipeline(
    vertex_module: u64,
    fragment_module: u64,
    layout: u64,
    render_pass: u64,
) -> GraphicsPipelinePlan {
    GraphicsPipelinePlan {
        vertex_stage: ShaderStage { stage: SHADER_STAGE_VERTEX, module: vertex_module },
        fragment_stage: ShaderStage { stage: SHADER_STAGE_FRAGMENT, module: fragment_module },
        vertex_binding_count: 0,
        vertex_attribute_count: 0,
        input_assembly: InputAssembly {
            topology: TOPOLOGY_TRIANGLE_LIST,
            primitive_restart: false,
        },
        viewport_count: 1,
        scissor_count: 1,
        rasterization: planned_rasterization(),
        multisampling: planned_multisampling(),
        depth_stencil: false,
        color_blending: planned_color_blending(),
        layout,
        render_pass,
        subpass: 0,
        base_pipeline: None,
        base_pipeline_index: -1i32,
    }
}

/// Plans the graphics pipeline around two shader modules, a layout and a
/// render pass, each given by its handle.
pub fn plan_graphics_pipeline(
    vertex_module: u64,
    fragment_module: u64,
    layout: u64,
    render_pass: u64,
) -> (plan: GraphicsPipelinePlan)
    ensures
        plan == planned_pipeline(vertex_module, fragment_module, layout, render_pass),
        plan.color_blending.attachment.color_write_mask == COLOR_COMPONENT_R | COLOR_COMPONENT_G
            | COLOR_COMPONENT_B | COLOR_COMPONENT_A,
{
    assert(0x1u32 | 0x2u32 | 0x4u32 | 0x8u32 == 0xfu32) by (bit_vector);
    let rasterization = Rasterization {
        depth_clamp: false,
        rasterizer_discard: false,
        polygon_mode: POLYGON_MODE_FILL,
        line_width: F32_ONE,
        cull_mode: CULL_MODE_BACK,
        front_face: FRONT_FACE_CLOCKWISE,
        depth_bias: false,
        depth_bias_constant_factor: F32_ZERO,
        depth_bias_clamp: F32_ZERO,
        depth_bias_slope_factor: F32_ZERO,
    };
    let multisampling = Multisampling {
        sample_shading: false,
        rasterization_samples: SAMPLE_COUNT_1,
        min_sample_shading: F32_ONE,
        alpha_to_coverage: false,
        alpha_to_one: false,
    };
    let attachment = ColorBlendAttachment {
        color_write_mask: COLOR_COMPONENT_R | COLOR_COMPONENT_G | COLOR_COMPONENT_B
            | COLOR_COMPONENT_A,
        blend: false,
        src_color_blend_factor: BLEND_FACTOR_ONE,
        dst_color_blend_factor: BLEND_FACTOR_ZERO,
        color_blend_op: BLEND_OP_ADD,
        src_alpha_blend_factor: BLEND_FACTOR_ONE,
        dst_alpha_blend_factor: BLEND_FACTOR_ZERO,
        alpha_blend_op: BLEND_OP_ADD,
    };
    let color_blending = ColorBlending {
        logic_op_enabled: false,
        logic_op: LOGIC_OP_COPY,
        attachment,
        blend_constant_r: F32_ZERO,
        blend_constant_g: F32_ZERO,
        blend_constant_b: F32_ZERO,
        blend_constant_a: F32_ZERO,
    };
    GraphicsPipelinePlan {
        vertex_stage: ShaderStage { stage: SHADER_STAGE_VERTEX, module: vertex_module },
        fragment_stage: ShaderStage { stage: SHADER_STAGE_FRAGMENT, module: fragment_module },
        vertex_binding_count: 0,
        vertex_attribute_count: 0,
        input_assembly: InputAssembly {
            topology: TOPOLOGY_TRIANGLE_LIST,
            primitive_restart: false,
        },
        viewport_count: 1,
        scissor_count: 1,
        rasterization,
        multisampling,
        depth_stencil: false,
        color_blending,
        layout,
        render_pass,
        subpass: 0,
        base_pipeline: None,
        base_pipeline_index: -1,
    }
}

/// The name of the function at which both shaders start.
pub fn shader_entry_point() -> (name: String)
    ensures
        name@ == "main"@,
{
    String::from_str("main")
}

/// Lists what the pipeline leaves to be set while drawing: the viewport and
/// the scissor, as raw `VkDynamicState`.
pub fn dynamic_states() -> (states: Vec<i32>)
    ensures
        states@ == seq![DYNAMIC_STATE_VIEWPORT, DYNAMIC_STATE_SCISSOR],
{
    let mut states: Vec<i32> = Vec::new();
    states.push(DYNAMIC_STATE_VIEWPORT);
    states.push(DYNAMIC_STATE_SCISSOR);
    assert(states@ =~= seq![DYNAMIC_STATE_VIEWPORT, DYNAMIC_STATE_SCISSOR]);
    states
}

/// Takes the pipeline out of what the driver returned for a request for one
/// pipeline. A driver that returns none has failed the request.
pub fn first_pipeline(pipelines: &Vec<u64>) -> (r: Result<u64, RendererError>)
    ensures
        pipelines@.len() > 0 ==> r == Ok::<u64, RendererError>(pipelines@[0]),
        pipelines@.len() == 0 ==> r == Err::<u64, RendererError>(
            RendererError::NoPipelineReturned,
        ),
{
    if pipelines.len() > 0 {
        Ok(pipelines[0])
    } else {
        Err(RendererError::NoPipelineReturned)
    }
}

/// The pipeline with the objects it was made from, each by its handle.
#[derive(Clone, Copy, Debug, PartialEq, Eq, Structural)]
pub struct Pipeline {
    pub layout: u64,
    pub pipeline: u64,
    pub render_pass: u64,
}

/// Everything that creating one framebuffer is told.
#[derive(Clone, Copy, Debug, PartialEq, Eq, Structural)]
pub struct FramebufferPlan {
    /// The render pass's handle.
    pub render_pass: u64,
    /// The handle of the image view that is the framebuffer's one attachment.
    pub attachment: u64,
    pub width: u32,
    pub height: u32,
    pub layers: u32,
}

/// The framebuffer around one image view: single-layered, of the swapchain's
/// size, for use in `render_pass`.
pub open spec fn planned_framebuffer(
    render_pass: u64,
    view: u64,
    extent: Extent2D,
) -> FramebufferPlan {
    FramebufferPlan {
        render_pass,
        attachment: view,
        width: extent.width,
        height: extent.height,
        layers: 1,
    }
}

/// Plans one framebuffer for each of the swapchain's image views, in the
/// views' order.
pub fn plan_framebuffers(swapchain: &SwapChain, pipeline: &Pipeline) -> (plans: Vec<
    FramebufferPlan,
>)
    ensures
        plans@.len() == swapchain.image_views@.len(),
        forall|i: int|
            0 <= i < swapchain.image_views@.len() ==> #[trigger] plans@[i] == planned_framebuffer(
                pipeline.render_pass,
                swapchain.image_views@[i],
                swapchain.extent,
            ),
{
    let mut plans: Vec<FramebufferPlan> = Vec::new();
    let mut i: usize = 0;
    while i < swapchain.image_views.len()
        invariant
            i <= swapchain.image_views.len(),
            plans@.len() == i,
            forall|k: int|
                0 <= k < i ==> #[trigger] plans@[k] == planned_framebuffer(
                    pipeline.render_pass,
                    swapchain.image_views@[k],
                    swapchain.extent,
                ),
        decreases swapchain.image_views.len() - i,
    {
        plans.push(
            FramebufferPlan {
                render_pass: pipeline.render_pass,
                attachment: swapchain.image_views[i],
                width: swapchain.extent.width,
                height: swapchain.extent.height,
                layers: 1,
            },
        );
        i += 1;
    }
    plans
}

/// The framebuffers of a swapchain, one per image and in the images' order,
/// each by its handle.
#[derive(Debug)]
pub struct FramebufferSet {
    pub framebuffers: Vec<u64>,
}

impl FramebufferSet {
    /// There is a framebuffer for each image of `swapchain`.
    pub open spec fn covers(&self, swapchain: &SwapChain) -> bool {
        self.framebuffers@.len() == swapchain.images@.len()
    }

    /// Takes the framebuffers made for a swapchain together. There is no set
    /// unless there are as many framebuffers as images.
    pub fn new(framebuffers: Vec<u64>, swapchain: &SwapChain) -> (r: Option<FramebufferSet>)
        ensures
            r is Some <==> framebuffers@.len() == swapchain.images@.len(),
            r matches Some(set) ==> set.framebuffers@ == framebuffers@ && set.covers(swapchain),
    {
        if framebuffers.len() == swapchain.images.len() {
            Some(FramebufferSet { framebuffers })
        } else {
            None
        }
    }
}

/// A swapchain with `n` images that is well formed has `n` views, is planned
/// `n` image views and `n` framebuffers, and the view and the framebuffer at
/// each place belong to the image at that place.
pub proof fn lemma_one_view_and_framebuffer_per_image(
    swapchain: SwapChain,
    view_plans: Seq<crate::swapchain::ImageViewPlan>,
    framebuffer_plans: Seq<FramebufferPlan>,
    render_pass: u64,
)
    requires
        swapchain.well_formed(),
        view_plans.len() == swapchain.images@.len(),
        forall|i: int|
            0 <= i < swapchain.images@.len() ==> #[trigger] view_plans[i]
                == crate::swapchain::planned_image_view(swapchain.images@[i], swapchain.format),
        framebuffer_plans.len() == swapchain.image_views@.len(),
        forall|i: int|
            0 <= i < swapchain.image_views@.len() ==> #[trigger] framebuffer_plans[i]
                == planned_framebuffer(render_pass, swapchain.image_views@[i], swapchain.extent),
    ensures
        view_plans.len() == swapchain.images@.len(),
        framebuffer_plans.len() == swapchain.images@.len(),
        swapchain.image_views@.len() == swapchain.images@.len(),
        forall|i: int|
            0 <= i < swapchain.images@.len() ==> {
                &&& (#[trigger] view_plans[i]).image == swapchain.images@[i]
                &&& (#[trigger] framebuffer_plans[i]).attachment == swapchain.image_views@[i]
            },
{
}

/// Everything that creating the command pool is told.
#[derive(Clone, Copy, Debug, PartialEq, Eq, Structural)]
pub struct CommandPoolPlan {
    /// Raw `VkCommandPoolCreateFlags`.
    pub flags: u32,
    pub queue_family_index: u32,
}

/// Plans the command pool: on the graphics family, with buffers that can be
/// reset one by one.
pub fn plan_command_pool(families: &QueueFamilies) -> (plan: CommandPoolPlan)
    requires
        families.graphics_family is Some,
    ensures
        plan == (CommandPoolPlan {
            flags: COMMAND_POOL_RESET_COMMAND_BUFFER,
            queue_family_index: families.graphics_family->Some_0,
        }),
{
    let queue_family_index: u32 = match families.graphics_family {
        Some(g) => g,
        None => 0,
    };
    CommandPoolPlan { flags: COMMAND_POOL_RESET_COMMAND_BUFFER, queue_family_index }
}

/// Everything that allocating command buffers is told.
#[derive(Clone, Copy, Debug, PartialEq, Eq, Structural)]
pub struct CommandBufferPlan {
    /// The command pool's handle.
    pub command_pool: u64,
    /// Raw `VkCommandBufferLevel`.
    pub level: i32,
    pub count: u32,
}

/// Plans the one primary command buffer, which every frame records anew.
pub fn plan_command_buffer(command_pool: u64) -> (plan: CommandBufferPlan)
    ensures
        plan == (CommandBufferPlan { command_pool, level: COMMAND_BUFFER_LEVEL_PRIMARY, count: 1 }),
{
    CommandBufferPlan { command_pool, level: COMMAND_BUFFER_LEVEL_PRIMARY, count: 1 }
}

/// Takes the command buffer out of what the driver returned for a request for
/// one buffer.
pub fn first_command_buffer(buffers: &Vec<u64>) -> (r: Option<u64>)
    ensures
        buffers@.len() > 0 ==> r == Some(buffers@[0]),
        buffers@.len() == 0 ==> r is None,
{
    if buffers.len() > 0 {
        Some(buffers[0])
    } else {
        None
    }
}

/// What the synchronisation objects are created with.
#[derive(Clone, Copy, Debug, PartialEq, Eq, Structural)]
pub struct SyncObjectsPlan {
    /// Raw `VkSemaphoreCreateFlags` of both semaphores.
    pub semaphore_flags: u32,
    /// Raw `VkFenceCreateFlags` of the fence.
    pub fence_flags: u32,
}

/// Plans the two semaphores and the fence. The fence starts signalled, so
/// that the first frame's wait on it returns.
pub fn plan_sync_objects() -> (plan: SyncObjectsPlan)
    ensures
        plan == (SyncObjectsPlan { semaphore_flags: 0, fence_flags: FENCE_CREATE_SIGNALED }),
{
    SyncObjectsPlan { semaphore_flags: 0, fence_flags: FENCE_CREATE_SIGNALED }
}

/// The objects that order a frame's work, each by its handle.
#[derive(Clone, Copy, Debug, PartialEq, Eq, Structural)]
pub struct SyncObjects {
    /// Signalled when the acquired image may be written.
    pub image_available: u64,
    /// Signalled when the frame's commands have run.
    pub render_finished: u64,
    /// Signalled when the frame's submission has left the GPU.
    pub in_flight: u64,
}

} // verus!
