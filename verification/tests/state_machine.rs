use frameloop::frame::FrameRecording;
use frameloop::state::Directive;
use frameloop::state::EventKind;
use frameloop::state::FrameOutcome;
use frameloop::state::RenderStatus;
use frameloop::state::State;
use frameloop::state::SurfaceError;
use frameloop::state::is_key_pressed;
use frameloop::surface::Size;
use frameloop::surface::SurfaceFormat;

fn fresh_state(width: u32, height: u32) -> State {
    State::new(
        SurfaceFormat { code: 1, srgb: true },
        0,
        Size { width, height },
        true,
    )
}

#[test]
fn configure_is_idempotent() {
    let mut a = fresh_state(800, 600);
    a.resize(Size { width: 640, height: 480 });
    let once = a;
    a.resize(Size { width: 640, height: 480 });
    assert_eq!(a.config, once.config);
    assert_eq!(a, once);
    assert!(a.surface_configured);
}

#[test]
fn configure_enforces_floor_on_stored_size() {
    let mut s = fresh_state(800, 600);
    s.resize(Size { width: 10, height: 3 });
    assert_eq!(s.config.width, 50);
    assert_eq!(s.config.height, 50);
    assert_eq!(s.size.width, 50);
    assert_eq!(s.size.height, 50);
    s.resize(Size { width: 0, height: 1024 });
    assert_eq!(s.config.width, 50);
    assert_eq!(s.config.height, 1024);
}

#[test]
fn render_before_configure_is_noop() {
    let mut s = fresh_state(800, 600);
    let before = s;
    let r = s.render(Ok(()));
    assert_eq!(r, Ok(RenderStatus::NotConfigured));
    assert_eq!(s, before);
}

#[test]
fn redraw_before_configure_is_skipped() {
    let mut s = fresh_state(800, 600);
    let d = s.request_redraw(Ok(()));
    assert_eq!(d.outcome, FrameOutcome::Skipped);
    assert!(!d.exit);
    assert!(!d.reconfigure_surface);
    assert!(d.schedule_redraw);
}

#[test]
fn no_frame_state_survives_a_render() {
    let mut s = fresh_state(800, 600);
    s.resize(Size { width: 800, height: 600 });
    let configured = s;
    let first = s.render(Ok(()));
    assert_eq!(first, Ok(RenderStatus::Presented));
    assert!(!s.frame_live);
    assert_eq!(s, configured);
    let second = s.render(Ok(()));
    assert_eq!(second, Ok(RenderStatus::Presented));
    assert!(!s.frame_live);
    assert_eq!(s, configured);
}

#[test]
fn no_frame_state_survives_a_failed_render() {
    let mut s = fresh_state(800, 600);
    s.resize(Size { width: 800, height: 600 });
    let configured = s;
    let r = s.render(Err(SurfaceError::Timeout));
    assert_eq!(r, Err(SurfaceError::Timeout));
    assert!(!s.frame_live);
    assert_eq!(s, configured);
    assert_eq!(s.render(Ok(())), Ok(RenderStatus::Presented));
}

#[test]
fn stale_surface_recovers_after_reconfigure() {
    let mut s = fresh_state(800, 600);
    s.resize(Size { width: 800, height: 600 });
    let configured = s;
    let r = s.render(Err(SurfaceError::Lost));
    assert_eq!(r, Err(SurfaceError::Lost));
    assert_eq!(s, configured);
    let stored = s.size;
    s.resize(stored);
    assert_eq!(s, configured);
    assert_eq!(s.render(Ok(())), Ok(RenderStatus::Presented));
}

#[test]
fn stale_outcomes_ask_for_reconfigure() {
    for e in [SurfaceError::Lost, SurfaceError::Outdated] {
        let mut s = fresh_state(800, 600);
        s.resize(Size { width: 800, height: 600 });
        let before = s;
        let d = s.request_redraw(Err(e));
        assert_eq!(d.outcome, FrameOutcome::Stale);
        assert!(d.reconfigure_surface);
        assert!(!d.exit);
        assert!(d.schedule_redraw);
        assert_eq!(s, before);
    }
}

#[test]
fn out_of_memory_stops_the_loop() {
    let mut s = fresh_state(800, 600);
    s.resize(Size { width: 800, height: 600 });
    let d = s.request_redraw(Err(SurfaceError::OutOfMemory));
    assert_eq!(d.outcome, FrameOutcome::Fatal);
    assert!(d.exit);
    assert!(!d.reconfigure_surface);
}

#[test]
fn timeout_changes_nothing() {
    let mut s = fresh_state(800, 600);
    s.resize(Size { width: 800, height: 600 });
    let before = s;
    let d = s.request_redraw(Err(SurfaceError::Timeout));
    assert_eq!(d.outcome, FrameOutcome::TimedOut);
    assert!(!d.exit);
    assert!(!d.reconfigure_surface);
    assert_eq!(s, before);
}

#[test]
fn full_scenario_configure_render_resize_render() {
    let mut s = fresh_state(800, 600);
    assert!(!s.surface_configured);
    s.resize(Size { width: 800, height: 600 });
    assert_eq!(s.config.width, 800);
    assert_eq!(s.config.height, 600);
    assert_eq!(s.render(Ok(())), Ok(RenderStatus::Presented));
    s.resize(Size { width: 50, height: 50 });
    assert_eq!(s.config.width, 50);
    assert_eq!(s.config.height, 50);
    assert_eq!(s.render(Ok(())), Ok(RenderStatus::Presented));
}

#[test]
fn frame_scope_runs_in_order() {
    let mut s = fresh_state(800, 600);
    s.resize(Size { width: 800, height: 600 });
    let mut rec: FrameRecording = s.begin_frame();
    assert!(s.frame_live);
    assert!(!rec.pass_open && !rec.drawn && !rec.pass_closed);
    let clear = rec.open_pass();
    assert_eq!(
        (clear.red_milli, clear.green_milli, clear.blue_milli, clear.alpha_milli),
        (100, 200, 300, 1000)
    );
    assert!(rec.pass_open);
    let draw = rec.draw();
    assert_eq!(draw.first_vertex, 0);
    assert_eq!(draw.vertex_count, 3);
    assert_eq!(draw.first_instance, 0);
    assert_eq!(draw.instance_count, 1);
    rec.close_pass();
    assert!(rec.pass_closed && !rec.pass_open);
    s.end_frame(rec);
    assert!(!s.frame_live);
}

#[test]
fn close_event_exits() {
    let mut s = fresh_state(800, 600);
    let before = s;
    let d = s.handle_events(&EventKind::CloseRequested, Ok(()));
    assert!(d.exit);
    assert_eq!(s, before);
}

#[test]
fn resize_event_configures() {
    let mut s = fresh_state(800, 600);
    let d = s.handle_events(&EventKind::Resized(Size { width: 20, height: 900 }), Ok(()));
    assert!(d.reconfigure_surface);
    assert!(!d.exit);
    assert!(s.surface_configured);
    assert_eq!(s.config.width, 50);
    assert_eq!(s.config.height, 900);
}

#[test]
fn redraw_event_renders() {
    let mut s = fresh_state(800, 600);
    s.resize(Size { width: 800, height: 600 });
    let d = s.handle_events(&EventKind::RedrawRequested, Ok(()));
    assert_eq!(d.outcome, FrameOutcome::Presented);
    assert!(d.schedule_redraw);
}

#[test]
fn other_event_is_ignored() {
    let mut s = fresh_state(800, 600);
    let before = s;
    let d = s.handle_events(&EventKind::Other, Ok(()));
    let quiet = Directive {
        outcome: FrameOutcome::Skipped,
        schedule_redraw: false,
        reconfigure_surface: false,
        exit: false,
    };
    assert_eq!(d, quiet);
    assert_eq!(s, before);
}

#[test]
fn on_demand_redraw_mode_is_respected() {
    let mut s = State::new(
        SurfaceFormat { code: 1, srgb: true },
        0,
        Size { width: 800, height: 600 },
        false,
    );
    s.resize(Size { width: 800, height: 600 });
    let d = s.request_redraw(Ok(()));
    assert_eq!(d.outcome, FrameOutcome::Presented);
    assert!(!d.schedule_redraw);
}

#[test]
fn key_press_is_recognised() {
    let press = EventKind::KeyboardInput { pressed: true, key_code: 41 };
    let release = EventKind::KeyboardInput { pressed: false, key_code: 41 };
    assert!(is_key_pressed(&press, 41));
    assert!(!is_key_pressed(&press, 42));
    assert!(!is_key_pressed(&release, 41));
    assert!(!is_key_pressed(&EventKind::Other, 41));
}

#[test]
fn input_consumes_nothing() {
    let mut s = fresh_state(800, 600);
    let before = s;
    assert!(!s.input(&EventKind::Other));
    assert!(!s.input(&EventKind::RedrawRequested));
    assert_eq!(s, before);
}

#[test]
fn new_state_clamps_to_one_pixel() {
    let s = fresh_state(0, 0);
    assert_eq!(s.size.width, 1);
    assert_eq!(s.size.height, 1);
    assert_eq!(s.config.width, 1);
    assert_eq!(s.config.height, 1);
    assert!(!s.surface_configured);
}
