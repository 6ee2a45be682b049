use graph::window::{GraphWindowBuilder, RenderBackend, WindowOp};

#[test]
fn new_builder_requests_nothing() {
    let builder = GraphWindowBuilder::new("Graph Browser", 480, 270);
    assert_eq!(builder.backend(), RenderBackend::Unselected);
    let plan = builder.opengl().build();
    assert_eq!(plan.title, "Graph Browser");
    assert_eq!(plan.width, 480);
    assert_eq!(plan.height, 270);
    assert_eq!(plan.ops, vec![WindowOp::OpenGl]);
    assert_eq!(plan.backend, RenderBackend::OpenGL);
}

#[test]
fn requests_are_recorded_in_order() {
    let plan = GraphWindowBuilder::new("Graph Browser", 480, 270)
        .position_centered()
        .resizable()
        .opengl()
        .build();
    assert_eq!(
        plan.ops,
        vec![
            WindowOp::PositionCentered,
            WindowOp::Resizable,
            WindowOp::OpenGl
        ]
    );
    assert_eq!(plan.backend, RenderBackend::OpenGL);
}

#[test]
fn every_request_has_its_own_record() {
    let plan = GraphWindowBuilder::new("w", 1, 2)
        .set_window_flags(5)
        .position(-3, 7)
        .position_centered()
        .fullscreen()
        .high_pixel_density()
        .opengl()
        .vulkan()
        .hidden()
        .borderless()
        .resizable()
        .minimized()
        .maximized()
        .input_grabbed()
        .metal_view()
        .build();
    assert_eq!(
        plan.ops,
        vec![
            WindowOp::SetWindowFlags(5),
            WindowOp::Position(-3, 7),
            WindowOp::PositionCentered,
            WindowOp::Fullscreen,
            WindowOp::HighPixelDensity,
            WindowOp::OpenGl,
            WindowOp::Vulkan,
            WindowOp::Hidden,
            WindowOp::Borderless,
            WindowOp::Resizable,
            WindowOp::Minimized,
            WindowOp::Maximized,
            WindowOp::InputGrabbed,
            WindowOp::MetalView,
        ]
    );
    assert_eq!(plan.title, "w");
    assert_eq!(plan.width, 1);
    assert_eq!(plan.height, 2);
}

#[test]
fn the_last_backend_chosen_wins() {
    let gl_then_vk = GraphWindowBuilder::new("w", 1, 1).opengl().vulkan();
    assert_eq!(gl_then_vk.backend(), RenderBackend::Vulkan);
    let vk_then_gl = GraphWindowBuilder::new("w", 1, 1).vulkan().opengl();
    assert_eq!(vk_then_gl.backend(), RenderBackend::OpenGL);
}

#[test]
fn other_requests_leave_the_backend_alone() {
    let builder = GraphWindowBuilder::new("w", 1, 1)
        .fullscreen()
        .hidden()
        .set_window_flags(0)
        .metal_view();
    assert_eq!(builder.backend(), RenderBackend::Unselected);
    let builder = builder.vulkan().borderless().set_window_flags(0);
    assert_eq!(builder.backend(), RenderBackend::Vulkan);
}
