use fyrox_ui_sdl3::draw::{DeviceOp, Frame};
use fyrox_ui_sdl3::platform::{ButtonState, Event, MouseButton, OsEvent, Platform};
use fyrox_ui_sdl3::FyroxUiSdl;

#[test]
fn backend_starts_with_the_window_size() {
    let backend = FyroxUiSdl::new(1024, 768);
    assert_eq!((backend.width, backend.height), (1024, 768));
    assert_eq!(backend.renderer.target_size(), (1024, 768));
    assert_eq!(backend.renderer.cached_pages(), 0);
    assert_eq!(backend.platform, Platform::new());
}

#[test]
fn backend_resize_reaches_the_renderer() {
    let mut backend = FyroxUiSdl::new(1280, 720);
    backend.resize(640, 480);
    assert_eq!((backend.width, backend.height), (640, 480));
    assert_eq!(backend.renderer.target_size(), (640, 480));
    let frame = Frame::new(3, Vec::new(), Vec::new()).unwrap();
    let plan = backend.render(&frame).unwrap();
    assert_eq!(plan.ops[3], DeviceOp::SetViewport { width: 640, height: 480 });
}

#[test]
fn backend_translates_events() {
    let mut backend = FyroxUiSdl::new(1280, 720);
    assert_eq!(
        backend.handle_event(&Event::MouseButtonDown { mouse_btn: 2 }),
        Some(vec![OsEvent::MouseInput { button: MouseButton::Middle, state: ButtonState::Pressed }])
    );
    assert_eq!(backend.handle_event(&Event::Other), None);
}

#[test]
fn backend_renders_nothing_for_an_empty_frame() {
    let mut backend = FyroxUiSdl::new(1280, 720);
    let frame = Frame::new(0, Vec::new(), Vec::new()).unwrap();
    let plan = backend.render(&frame).unwrap();
    assert!(plan.ops.is_empty());
}
