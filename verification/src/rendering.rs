//! The rendering decisions: how the swapchain is configured, how the
//! framebuffers and the viewport follow from the images the driver handed
//! back, and which commands each frame records.
//!
//! The unverified shell reduces what the driver reports to the plain values
//! these functions take, then creates the GPU objects and records the
//! command buffer exactly as the returned plans say.

use vstd::prelude::*;
use crate::EngineError;
use crate::primitives::triangle::Triangle;
use crate::shaders::ShaderId;

verus! {

/// Width of the main window, in logical pixels. The window is not
/// resizable.
pub const WIDTH: u32 = 800;
/// Height of the main window, in logical pixels.
pub const HEIGHT: u32 = 600;

/// Bit pattern of zero, used for the viewport origin and the clear color.
pub const COLOR_ZERO_BITS: u32 = 0x0000_0000;
/// Bit pattern of one, used for the clear color's blue and alpha channels.
pub const COLOR_ONE_BITS: u32 = 0x3F80_0000;

/// The color every frame starts from, as the bit patterns of its red,
/// green, blue and alpha channels: opaque blue.
pub fn clear_color_bits() -> (c: [u32; 4])
    ensures
        c@ == seq![COLOR_ZERO_BITS, COLOR_ZERO_BITS, COLOR_ONE_BITS, COLOR_ONE_BITS],
{
    let c = [COLOR_ZERO_BITS, COLOR_ZERO_BITS, COLOR_ONE_BITS, COLOR_ONE_BITS];
    proof {
        assert(c@ =~= seq![COLOR_ZERO_BITS, COLOR_ZERO_BITS, COLOR_ONE_BITS, COLOR_ONE_BITS]);
    }
    c
}

/// What the engine reads out of the presentation surface's capabilities:
/// the least image count the surface allows, and how many supported formats
/// and composite alpha modes it lists.
#[derive(Clone, Copy, Debug, PartialEq, Eq)]
pub struct SurfaceCaps {
    /// Least number of swapchain images the surface allows.
    pub min_image_count: u32,
    /// Number of surface formats the surface lists as supported.
    pub format_count: usize,
    /// Number of composite alpha modes the surface lists as supported.
    pub alpha_count: usize,
}

/// The decisions of swapchain creation. The remaining creation parameters
/// are fixed: one image layer, FIFO presentation, identity transform, and
/// clipping allowed.
#[derive(Clone, Copy, Debug, PartialEq, Eq)]
pub struct SwapchainPlan {
    /// Number of images to ask the swapchain for.
    pub image_count: u32,
    /// Index of the chosen format in the surface's supported-format list.
    pub format_index: usize,
    /// Index of the chosen mode in the surface's composite-alpha list.
    pub alpha_index: usize,
    /// Width and height of the swapchain images, in physical pixels.
    pub dimensions: [u32; 2],
}

/// Plans the swapchain: as many images as the surface requires, the first
/// supported format, the first supported composite alpha mode, and the
/// window's current physical size (`None` when the window is gone).
///
/// Fails with [`EngineError::NoSupportedAlpha`] exactly when the surface
/// lists no composite alpha mode; otherwise with
/// [`EngineError::NoSupportedFormat`] exactly when it lists no format;
/// otherwise with [`EngineError::WindowGone`] exactly when the window size
/// could not be read.
pub fn init_swapchain(caps: &SurfaceCaps, window_size: Option<[u32; 2]>) -> (r: Result<SwapchainPlan, EngineError>)
    ensures
        match r {
            Ok(plan) => caps.alpha_count > 0
                && caps.format_count > 0
                && window_size == Some(plan.dimensions)
                && plan.image_count == caps.min_image_count
                && plan.format_index == 0
                && plan.alpha_index == 0,
            Err(e) => if caps.alpha_count == 0 {
                e == EngineError::NoSupportedAlpha
            } else if caps.format_count == 0 {
                e == EngineError::NoSupportedFormat
            } else {
                e == EngineError::WindowGone && window_size is None
            },
        },
{
    if caps.alpha_count == 0 {
        return Err(EngineError::NoSupportedAlpha);
    }
    if caps.format_count == 0 {
        return Err(EngineError::NoSupportedFormat);
    }
    match window_size {
        Some(dimensions) => Ok(SwapchainPlan {
            image_count: caps.min_image_count,
            format_index: 0,
            alpha_index: 0,
            dimensions,
        }),
        None => Err(EngineError::WindowGone),
    }
}

/// The one viewport every frame draws to, covering a whole swapchain
/// image. The shell turns the pixel counts into the floating-point extents
/// the pipeline expects; the depth range is fixed to zero through one.
#[derive(Clone, Copy, Debug, PartialEq, Eq)]
pub struct ViewportPlan {
    /// Top-left corner, in pixels: always the origin.
    pub origin: [u32; 2],
    /// Width and height, in pixels: the swapchain image size.
    pub dimensions: [u32; 2],
}

/// What follows from the images the driver handed back: one framebuffer
/// per swapchain image, and a viewport covering the first image.
#[derive(Clone, Copy, Debug, PartialEq, Eq)]
pub struct FramebufferPlan {
    /// Number of framebuffers to build: one per swapchain image.
    pub framebuffer_count: usize,
    /// The viewport to store in the pipeline's dynamic state.
    pub viewport: ViewportPlan,
}

/// Plans the framebuffers for the swapchain images the driver returned:
/// one per image, with the viewport covering their common size.
pub fn init_framebuffers(image_count: usize, image_dimensions: [u32; 2]) -> (r: FramebufferPlan)
    requires
        image_count >= 1,
    ensures
        r.framebuffer_count == image_count,
        r.viewport.origin@ == seq![0u32, 0u32],
        r.viewport.dimensions == image_dimensions,
{
    let origin = [0u32, 0u32];
    proof {
        assert(origin@ =~= seq![0u32, 0u32]);
    }
    FramebufferPlan {
        framebuffer_count: image_count,
        viewport: ViewportPlan { origin, dimensions: image_dimensions },
    }
}

/// The single render pass: one color attachment in the swapchain's format,
/// cleared on load, stored on completion, sampled once.
#[derive(Clone, Copy, Debug, PartialEq, Eq)]
pub struct RenderPassPlan {
    /// Index of the attachment's format in the surface's supported-format
    /// list: the format the swapchain was created with.
    pub format_index: usize,
    /// Samples per pixel of the color attachment.
    pub samples: u32,
    /// Whether the attachment is cleared when the pass begins.
    pub clear_on_load: bool,
    /// Whether the attachment is stored when the pass ends.
    pub store_output: bool,
}

/// Plans the render pass for a swapchain created from the given plan: a
/// single pass over a single color attachment in the swapchain's format.
pub fn init_render_pass(swapchain: &SwapchainPlan) -> (r: RenderPassPlan)
    ensures
        r.format_index == swapchain.format_index,
        r.samples == 1,
        r.clear_on_load,
        r.store_output,
{
    RenderPassPlan {
        format_index: swapchain.format_index,
        samples: 1,
        clear_on_load: true,
        store_output: true,
    }
}

/// How the fixed graphics pipeline assembles primitives.
#[derive(Clone, Copy, Debug, PartialEq, Eq)]
pub enum PrimitiveTopology {
    /// Every three consecutive vertices form one triangle.
    TriangleList,
}

/// The fixed graphics pipeline: the built-in shader pair, a single vertex
/// buffer, triangle lists, and one dynamic viewport on the render pass's
/// only subpass.
#[derive(Clone, Copy, Debug, PartialEq, Eq)]
pub struct PipelinePlan {
    /// Shader run once per vertex.
    pub vertex_shader: ShaderId,
    /// Shader run once per fragment.
    pub fragment_shader: ShaderId,
    /// How consecutive vertices are assembled into primitives.
    pub topology: PrimitiveTopology,
    /// Number of viewports set through dynamic state.
    pub dynamic_viewport_count: u32,
    /// Index of the subpass the pipeline draws in.
    pub subpass_index: u32,
}

/// Plans the engine's one graphics pipeline.
pub fn init_graphical_pipeline() -> (r: PipelinePlan)
    ensures
        r.vertex_shader is BasicTriangleVert,
        r.fragment_shader is BasicTriangleFrag,
        r.topology is TriangleList,
        r.dynamic_viewport_count == 1,
        r.subpass_index == 0,
{
    PipelinePlan {
        vertex_shader: ShaderId::BasicTriangleVert,
        fragment_shader: ShaderId::BasicTriangleFrag,
        topology: PrimitiveTopology::TriangleList,
        dynamic_viewport_count: 1,
        subpass_index: 0,
    }
}

/// One step of a frame's command buffer, in recording order.
#[derive(Clone, Copy, Debug, PartialEq, Eq)]
pub enum DrawCommand {
    /// Begin the render pass on the framebuffer of the acquired image,
    /// clearing it to [`clear_color_bits`].
    BeginRenderPass {
        /// Index of the framebuffer drawn to: the acquired image's index.
        framebuffer_index: usize,
    },
    /// Draw one renderable's vertex buffer with the fixed pipeline.
    Draw {
        /// Index of the renderable in the engine's draw order.
        renderable_index: usize,
    },
    /// End the render pass; the frame is then submitted and presented.
    EndRenderPass,
}

/// The per-frame state the verified engine keeps of the rendering system:
/// how many framebuffers exist and which viewport each frame draws to. The
/// GPU handles themselves (device, queue, swapchain, pipeline) live in the
/// unverified shell.
pub struct RenderingSystem {
    /// Number of framebuffers, one per swapchain image.
    pub framebuffer_count: usize,
    /// The viewport every frame draws to.
    pub viewport: ViewportPlan,
}

impl RenderingSystem {
    /// Initializes the rendering state from the swapchain images the
    /// driver returned: their count and their common size in pixels.
    pub fn init(image_count: usize, image_dimensions: [u32; 2]) -> (r: RenderingSystem)
        requires
            image_count >= 1,
        ensures
            r.framebuffer_count == image_count,
            r.viewport.origin@ == seq![0u32, 0u32],
            r.viewport.dimensions == image_dimensions,
    {
        let plan = init_framebuffers(image_count, image_dimensions);
        RenderingSystem {
            framebuffer_count: plan.framebuffer_count,
            viewport: plan.viewport,
        }
    }

    /// Records one frame: begin the render pass on the acquired image's
    /// framebuffer, draw every renderable once in draw order, end the
    /// pass. The shell executes the returned commands, then submits,
    /// presents, and blocks on the frame's fence.
    pub fn render(&self, image_index: usize, renderables: &Vec<Triangle>) -> (r: Vec<DrawCommand>)
        requires
            image_index < self.framebuffer_count,
            renderables@.len() + 2 <= usize::MAX,
        ensures
            r@.len() == renderables@.len() + 2,
            r@[0] == (DrawCommand::BeginRenderPass { framebuffer_index: image_index }),
            forall|i: int| 0 <= i < renderables@.len()
                ==> #[trigger] r@[i + 1] == (DrawCommand::Draw { renderable_index: i as usize }),
            r@[renderables@.len() as int + 1] == DrawCommand::EndRenderPass,
    {
        let mut commands: Vec<DrawCommand> = Vec::new();
        commands.push(DrawCommand::BeginRenderPass { framebuffer_index: image_index });
        let mut i: usize = 0;
        while i < renderables.len()
            invariant
                i <= renderables@.len(),
                renderables@.len() + 2 <= usize::MAX,
                commands@.len() == i + 1,
                commands@[0] == (DrawCommand::BeginRenderPass { framebuffer_index: image_index }),
                forall|j: int| 0 <= j < i
                    ==> #[trigger] commands@[j + 1] == (DrawCommand::Draw { renderable_index: j as usize }),
            decreases renderables@.len() - i,
        {
            commands.push(DrawCommand::Draw { renderable_index: i });
            i = i + 1;
        }
        commands.push(DrawCommand::EndRenderPass);
        commands
    }
}

} // verus!
