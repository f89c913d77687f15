use engine::device::plan_device_init;
use engine::device::select_graphics_queue_family;
use engine::device::select_physical_device;
use engine::device::DeviceInitPlan;
use engine::device::QUEUE_PRIORITY_BITS;
use engine::primitives::triangle::Triangle;
use engine::primitives::triangle::Vertex;
use engine::primitives::HALF_BITS;
use engine::primitives::NEG_HALF_BITS;
use engine::primitives::NEG_QUARTER_BITS;
use engine::primitives::NEG_TENTH_BITS;
use engine::primitives::QUARTER_BITS;
use engine::primitives::ZERO_BITS;
use engine::rendering::clear_color_bits;
use engine::rendering::init_framebuffers;
use engine::rendering::init_graphical_pipeline;
use engine::rendering::init_render_pass;
use engine::rendering::init_swapchain;
use engine::rendering::DrawCommand;
use engine::rendering::PrimitiveTopology;
use engine::rendering::RenderingSystem;
use engine::rendering::SurfaceCaps;
use engine::rendering::HEIGHT;
use engine::rendering::WIDTH;
use engine::shaders::ShaderId;
use engine::shaders::ShaderKind;
use engine::Engine;
use engine::EngineError;
use engine::WindowEvent;

#[test]
fn coordinate_bit_patterns_match_ieee_values() {
    assert_eq!(NEG_HALF_BITS, (-0.5f32).to_bits());
    assert_eq!(NEG_QUARTER_BITS, (-0.25f32).to_bits());
    assert_eq!(ZERO_BITS, 0.0f32.to_bits());
    assert_eq!(HALF_BITS, 0.5f32.to_bits());
    assert_eq!(QUARTER_BITS, 0.25f32.to_bits());
    assert_eq!(NEG_TENTH_BITS, (-0.1f32).to_bits());
    assert_eq!(QUEUE_PRIORITY_BITS, 0.5f32.to_bits());
}

#[test]
fn window_dimensions_are_fixed() {
    assert_eq!(WIDTH, 800);
    assert_eq!(HEIGHT, 600);
}

#[test]
fn init_starts_with_nothing_to_draw() {
    let e = Engine::init();
    assert_eq!(e.renderables.len(), 0);
}

#[test]
fn push_triangle_appends_the_builtin_triangle() {
    let mut e = Engine::init();
    e.push_triangle();
    assert_eq!(e.renderables.len(), 1);
    let vertices = e.renderables[0].vertex_buffer();
    assert_eq!(
        vertices,
        [
            Vertex { x_bits: (-0.5f32).to_bits(), y_bits: (-0.25f32).to_bits() },
            Vertex { x_bits: 0.0f32.to_bits(), y_bits: 0.5f32.to_bits() },
            Vertex { x_bits: 0.25f32.to_bits(), y_bits: (-0.1f32).to_bits() },
        ]
    );
}

#[test]
fn push_triangle_keeps_earlier_renderables() {
    let mut e = Engine::init();
    let first = [
        Vertex { x_bits: 1, y_bits: 2 },
        Vertex { x_bits: 3, y_bits: 4 },
        Vertex { x_bits: 5, y_bits: 6 },
    ];
    e.new_triangle(first);
    e.push_triangle();
    assert_eq!(e.renderables.len(), 2);
    assert_eq!(e.renderables[0].vertex_buffer(), first);
}

#[test]
fn new_triangle_appends_the_given_vertices() {
    let mut e = Engine::init();
    let vertices = [
        Vertex { x_bits: 0.25f32.to_bits(), y_bits: 0.25f32.to_bits() },
        Vertex { x_bits: 0.5f32.to_bits(), y_bits: 0.5f32.to_bits() },
        Vertex { x_bits: 0.25f32.to_bits(), y_bits: 0.5f32.to_bits() },
    ];
    e.new_triangle(vertices);
    assert_eq!(e.renderables.len(), 1);
    assert_eq!(e.renderables[0].vertex_buffer(), vertices);
}

#[test]
fn from_vertices_keeps_draw_order() {
    let vertices = [
        Vertex { x_bits: 7, y_bits: 8 },
        Vertex { x_bits: 9, y_bits: 10 },
        Vertex { x_bits: 11, y_bits: 12 },
    ];
    let t = Triangle::from_vertices(vertices);
    assert_eq!(t.vertex_buffer(), vertices);
}

#[test]
fn first_physical_device_is_selected() {
    assert_eq!(select_physical_device(3), Ok(0));
    assert_eq!(select_physical_device(1), Ok(0));
}

#[test]
fn no_physical_device_is_an_error() {
    assert_eq!(select_physical_device(0), Err(EngineError::NoDevice));
}

#[test]
fn first_graphics_queue_family_is_selected() {
    let families = vec![false, true, true];
    assert_eq!(select_graphics_queue_family(&families), Ok(1));
    let families = vec![true, false];
    assert_eq!(select_graphics_queue_family(&families), Ok(0));
}

#[test]
fn no_graphics_queue_family_is_an_error() {
    let families = vec![false, false];
    assert_eq!(
        select_graphics_queue_family(&families),
        Err(EngineError::NoGraphicsQueueFamily)
    );
    let families: Vec<bool> = vec![];
    assert_eq!(
        select_graphics_queue_family(&families),
        Err(EngineError::NoGraphicsQueueFamily)
    );
}

#[test]
fn device_plan_combines_both_selections() {
    let families = vec![false, false, true];
    assert_eq!(
        plan_device_init(2, &families),
        Ok(DeviceInitPlan { physical_device_index: 0, queue_family_index: 2 })
    );
}

#[test]
fn device_plan_reports_missing_device_first() {
    let families = vec![true];
    assert_eq!(plan_device_init(0, &families), Err(EngineError::NoDevice));
}

#[test]
fn swapchain_plan_takes_first_format_and_alpha() {
    let caps = SurfaceCaps { min_image_count: 2, format_count: 4, alpha_count: 3 };
    let plan = init_swapchain(&caps, Some([800, 600])).unwrap();
    assert_eq!(plan.image_count, 2);
    assert_eq!(plan.format_index, 0);
    assert_eq!(plan.alpha_index, 0);
    assert_eq!(plan.dimensions, [800, 600]);
}

#[test]
fn swapchain_plan_without_alpha_is_an_error() {
    let caps = SurfaceCaps { min_image_count: 2, format_count: 4, alpha_count: 0 };
    assert_eq!(
        init_swapchain(&caps, Some([800, 600])),
        Err(EngineError::NoSupportedAlpha)
    );
}

#[test]
fn swapchain_plan_without_format_is_an_error() {
    let caps = SurfaceCaps { min_image_count: 2, format_count: 0, alpha_count: 1 };
    assert_eq!(
        init_swapchain(&caps, Some([800, 600])),
        Err(EngineError::NoSupportedFormat)
    );
}

#[test]
fn swapchain_plan_without_window_is_an_error() {
    let caps = SurfaceCaps { min_image_count: 2, format_count: 1, alpha_count: 1 };
    assert_eq!(init_swapchain(&caps, None), Err(EngineError::WindowGone));
}

#[test]
fn swapchain_errors_report_alpha_before_format_and_window() {
    let caps = SurfaceCaps { min_image_count: 1, format_count: 0, alpha_count: 0 };
    assert_eq!(init_swapchain(&caps, None), Err(EngineError::NoSupportedAlpha));
    let caps = SurfaceCaps { min_image_count: 1, format_count: 0, alpha_count: 1 };
    assert_eq!(init_swapchain(&caps, None), Err(EngineError::NoSupportedFormat));
}

#[test]
fn framebuffer_plan_covers_every_image() {
    let plan = init_framebuffers(3, [800, 600]);
    assert_eq!(plan.framebuffer_count, 3);
    assert_eq!(plan.viewport.origin, [0, 0]);
    assert_eq!(plan.viewport.dimensions, [800, 600]);
}

#[test]
fn rendering_system_follows_the_framebuffer_plan() {
    let sys = RenderingSystem::init(2, [1024, 768]);
    assert_eq!(sys.framebuffer_count, 2);
    assert_eq!(sys.viewport.origin, [0, 0]);
    assert_eq!(sys.viewport.dimensions, [1024, 768]);
}

#[test]
fn render_pass_plan_is_single_sampled_clear_and_store() {
    let caps = SurfaceCaps { min_image_count: 2, format_count: 2, alpha_count: 1 };
    let swapchain = init_swapchain(&caps, Some([800, 600])).unwrap();
    let pass = init_render_pass(&swapchain);
    assert_eq!(pass.format_index, swapchain.format_index);
    assert_eq!(pass.samples, 1);
    assert!(pass.clear_on_load);
    assert!(pass.store_output);
}

#[test]
fn pipeline_plan_is_the_fixed_triangle_pipeline() {
    let plan = init_graphical_pipeline();
    assert_eq!(plan.vertex_shader, ShaderId::BasicTriangleVert);
    assert_eq!(plan.fragment_shader, ShaderId::BasicTriangleFrag);
    assert_eq!(plan.topology, PrimitiveTopology::TriangleList);
    assert_eq!(plan.dynamic_viewport_count, 1);
    assert_eq!(plan.subpass_index, 0);
}

#[test]
fn clear_color_is_opaque_blue() {
    let bits = clear_color_bits();
    assert_eq!(
        bits,
        [0.0f32.to_bits(), 0.0f32.to_bits(), 1.0f32.to_bits(), 1.0f32.to_bits()]
    );
}

#[test]
fn render_records_one_draw_per_renderable_in_order() {
    let sys = RenderingSystem::init(3, [800, 600]);
    let mut e = Engine::init();
    e.push_triangle();
    e.new_triangle([
        Vertex { x_bits: 1, y_bits: 2 },
        Vertex { x_bits: 3, y_bits: 4 },
        Vertex { x_bits: 5, y_bits: 6 },
    ]);
    let commands = sys.render(1, &e.renderables);
    assert_eq!(
        commands,
        vec![
            DrawCommand::BeginRenderPass { framebuffer_index: 1 },
            DrawCommand::Draw { renderable_index: 0 },
            DrawCommand::Draw { renderable_index: 1 },
            DrawCommand::EndRenderPass,
        ]
    );
}

#[test]
fn render_with_nothing_to_draw_still_clears_and_presents() {
    let sys = RenderingSystem::init(1, [800, 600]);
    let e = Engine::init();
    let commands = sys.render(0, &e.renderables);
    assert_eq!(
        commands,
        vec![
            DrawCommand::BeginRenderPass { framebuffer_index: 0 },
            DrawCommand::EndRenderPass,
        ]
    );
}

#[test]
fn close_requested_finds_the_close_event() {
    let events = vec![WindowEvent::Other, WindowEvent::CloseRequested, WindowEvent::Other];
    assert!(engine::close_requested(&events));
}

#[test]
fn close_requested_ignores_other_events() {
    let events = vec![WindowEvent::Other, WindowEvent::Other];
    assert!(!engine::close_requested(&events));
    let events: Vec<WindowEvent> = vec![];
    assert!(!engine::close_requested(&events));
}

#[test]
fn error_messages_match_the_abort_texts() {
    assert_eq!(EngineError::NoDevice.message(), "no device available");
    assert_eq!(
        EngineError::NoGraphicsQueueFamily.message(),
        "couldn't find a graphical queue family"
    );
    assert_eq!(EngineError::NoSupportedFormat.message(), "no supported surface format");
    assert_eq!(EngineError::NoSupportedAlpha.message(), "no supported composite alpha");
    assert_eq!(EngineError::WindowGone.message(), "Window no longer exists");
}

#[test]
fn shader_dictionary_names_the_fixed_pair() {
    assert_eq!(ShaderId::BasicTriangleVert.kind(), ShaderKind::Vertex);
    assert_eq!(ShaderId::BasicTriangleFrag.kind(), ShaderKind::Fragment);
    assert_eq!(
        ShaderId::BasicTriangleVert.source_path(),
        "shaders/basic_triangle.vert"
    );
    assert_eq!(
        ShaderId::BasicTriangleFrag.source_path(),
        "shaders/basic_triangle.frag"
    );
}
