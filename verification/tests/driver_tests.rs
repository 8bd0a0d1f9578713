use render_core::driver::{Driver, LoopAction, LoopEvent, LoopState};
use render_core::frame::{frame_plan, RenderOutcome};
use render_core::pipeline::Pipeline;
use render_core::surface::{configure, PixelFormat, WindowSize};

fn running_driver(width: u32, height: u32) -> Driver {
    let formats = vec![PixelFormat { code: 2, srgb: true }];
    let present_modes = vec![0];
    let alpha_modes = vec![0];
    let size = WindowSize { width, height };
    let config = configure(&formats, &present_modes, &alpha_modes, size);
    Driver::new(config, size)
}

#[test]
fn positive_resize_is_applied() {
    let mut driver = running_driver(800, 600);
    let action = driver.step(LoopEvent::Resized { size: WindowSize { width: 1024, height: 768 } });
    assert_eq!(driver.config.width, 1024);
    assert_eq!(driver.config.height, 768);
    assert_eq!(driver.size, WindowSize { width: 1024, height: 768 });
    assert_eq!(action, LoopAction::Reconfigure { config: driver.config });
}

#[test]
fn zero_resize_is_a_no_op() {
    let mut driver = running_driver(800, 600);
    let before = driver.config;

    let action = driver.step(LoopEvent::Resized { size: WindowSize { width: 0, height: 600 } });
    assert_eq!(action, LoopAction::Ignore);
    assert_eq!(driver.config, before);

    let action = driver.step(LoopEvent::Resized { size: WindowSize { width: 800, height: 0 } });
    assert_eq!(action, LoopAction::Ignore);
    assert_eq!(driver.config, before);
    assert_eq!(driver.size, WindowSize { width: 800, height: 600 });
}

#[test]
fn tick_requests_redraw_and_redraw_renders() {
    let mut driver = running_driver(800, 600);
    assert_eq!(driver.step(LoopEvent::Tick), LoopAction::RequestRedraw);
    assert_eq!(driver.step(LoopEvent::RedrawRequested), LoopAction::Render);
    assert_eq!(driver.state, LoopState::Running);
}

#[test]
fn lost_surface_reconfigures_at_recorded_size() {
    let mut driver = running_driver(640, 480);
    let action = driver.finish_render(RenderOutcome::Lost);
    assert_eq!(
        action,
        LoopAction::Reconfigure { config: driver.config },
        "exactly one reconfiguration is dispatched"
    );
    assert_eq!(driver.config.width, 640);
    assert_eq!(driver.config.height, 480);
    assert_eq!(driver.state, LoopState::Running, "a lost surface must not terminate the loop");
}

#[test]
fn out_of_memory_terminates_the_loop() {
    let mut driver = running_driver(800, 600);
    assert_eq!(driver.finish_render(RenderOutcome::OutOfMemory), LoopAction::Exit);
    assert_eq!(driver.state, LoopState::Exiting);
    assert_eq!(driver.step(LoopEvent::Tick), LoopAction::Ignore);
    assert_eq!(driver.step(LoopEvent::RedrawRequested), LoopAction::Ignore);
}

#[test]
fn transient_error_reports_and_continues() {
    let mut driver = running_driver(800, 600);
    let action = driver.finish_render(RenderOutcome::Other { detail: "Timeout".to_owned() });
    assert_eq!(action, LoopAction::Report { detail: "Timeout".to_owned() });
    assert_eq!(driver.state, LoopState::Running);
    assert_eq!(driver.step(LoopEvent::Tick), LoopAction::RequestRedraw);
}

#[test]
fn close_request_exits() {
    let mut driver = running_driver(800, 600);
    assert_eq!(driver.step(LoopEvent::CloseRequested), LoopAction::Exit);
    assert_eq!(driver.state, LoopState::Exiting);
    assert_eq!(driver.step(LoopEvent::RedrawRequested), LoopAction::Ignore);
}

#[test]
fn fresh_escape_press_exits() {
    let mut driver = running_driver(800, 600);
    let action = driver.step(LoopEvent::Key { escape: true, pressed: true, repeat: false });
    assert_eq!(action, LoopAction::Exit);
    assert_eq!(driver.state, LoopState::Exiting);
    assert_eq!(driver.step(LoopEvent::Tick), LoopAction::Ignore);
}

#[test]
fn repeated_or_released_escape_is_ignored() {
    let mut driver = running_driver(800, 600);
    let action = driver.step(LoopEvent::Key { escape: true, pressed: true, repeat: true });
    assert_eq!(action, LoopAction::Ignore);
    let action = driver.step(LoopEvent::Key { escape: true, pressed: false, repeat: false });
    assert_eq!(action, LoopAction::Ignore);
    let action = driver.step(LoopEvent::Key { escape: false, pressed: true, repeat: false });
    assert_eq!(action, LoopAction::Ignore);
    assert_eq!(driver.state, LoopState::Running);
}

#[test]
fn other_events_are_ignored() {
    let mut driver = running_driver(800, 600);
    assert_eq!(driver.step(LoopEvent::Other), LoopAction::Ignore);
    assert_eq!(driver.state, LoopState::Running);
}

#[test]
fn frame_plan_is_fixed() {
    let plan = frame_plan();
    assert_eq!(plan.clear.r, 18);
    assert_eq!(plan.clear.g, 18);
    assert_eq!(plan.clear.b, 18);
    assert_eq!(plan.clear.a, 255);
    assert_eq!(plan.first_vertex, 0);
    assert_eq!(plan.vertex_count, 3);
    assert_eq!(plan.first_instance, 0);
    assert_eq!(plan.instance_count, 1);
}

#[test]
fn startup_render_resize_scenario() {
    // Startup at 800x600 with the shader asset present.
    let formats = vec![PixelFormat { code: 1, srgb: false }, PixelFormat { code: 2, srgb: true }];
    let present_modes = vec![7];
    let alpha_modes = vec![8];
    let size = WindowSize { width: 800, height: 600 };
    let config = configure(&formats, &present_modes, &alpha_modes, size);
    assert_eq!(config.format, PixelFormat { code: 2, srgb: true });

    let descriptor = Pipeline::new("tri.shader", "vs_main", "fs_main")
        .set_pixel_format(config.format)
        .build_pipeline(Some("triangle shader".to_owned()))
        .expect("the pipeline must build");
    assert_eq!(descriptor.pixel_format, config.format);
    assert_eq!(descriptor.vertex_entry, "vs_main");
    assert_eq!(descriptor.fragment_entry, "fs_main");

    let mut driver = Driver::new(config, size);

    // First frame: clear to the fixed background, draw the one triangle.
    assert_eq!(driver.step(LoopEvent::Tick), LoopAction::RequestRedraw);
    assert_eq!(driver.step(LoopEvent::RedrawRequested), LoopAction::Render);
    let plan = frame_plan();
    assert_eq!((plan.clear.r, plan.clear.g, plan.clear.b, plan.clear.a), (18, 18, 18, 255));
    assert_eq!(plan.vertex_count, 3);
    assert_eq!(plan.instance_count, 1);
    assert_eq!(driver.finish_render(RenderOutcome::Success), LoopAction::Ignore);
    assert_eq!(driver.state, LoopState::Running);

    // Resize to 400x300 reconfigures without error.
    let action = driver.step(LoopEvent::Resized { size: WindowSize { width: 400, height: 300 } });
    assert_eq!(action, LoopAction::Reconfigure { config: driver.config });
    assert_eq!(driver.config.width, 400);
    assert_eq!(driver.config.height, 300);
    assert_eq!(driver.config.format, PixelFormat { code: 2, srgb: true });

    // Resize to 0x0 leaves the 400x300 configuration intact.
    let action = driver.step(LoopEvent::Resized { size: WindowSize { width: 0, height: 0 } });
    assert_eq!(action, LoopAction::Ignore);
    assert_eq!(driver.config.width, 400);
    assert_eq!(driver.config.height, 300);
}
