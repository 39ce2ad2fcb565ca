use render_lifecycle::{fallback_adapter, Acquire, Action, Controller, Event, Phase, SurfaceConfig};

const WIN: u64 = 42;

fn active(width: u32, height: u32) -> Controller<u32> {
    let mut c = Controller::new();
    assert_eq!(c.handle(Event::Resumed), Action::CreateSession);
    let ready = Event::SessionReady { window: WIN, width, height, resources: 5 };
    assert_eq!(c.handle(ready), Action::RequestRedraw { window: WIN });
    c
}

fn size(c: &Controller<u32>) -> Option<(u32, u32)> {
    c.config().map(|k| (k.width, k.height))
}

#[test]
fn end_to_end_scenario() {
    let mut c = active(800, 600);
    assert!(c.has_session());
    assert_eq!(size(&c), Some((800, 600)));

    let mut gpu_calls = Vec::new();
    let a = c.handle(Event::RedrawRequested { window: WIN });
    assert_eq!(a, Action::AcquireFrame);
    gpu_calls.push(a);
    let a = c.handle(Event::Acquired { outcome: Acquire::Ready });
    assert_eq!(a, Action::DrawFrame);
    gpu_calls.push(a);

    assert_eq!(c.handle(Event::Resized { window: WIN, width: 0, height: 600 }), Action::Nothing);
    assert_eq!(size(&c), Some((800, 600)));

    let a = c.handle(Event::Resized { window: WIN, width: 400, height: 300 });
    assert_eq!(a, Action::Reconfigure { width: 400, height: 300 });
    assert_eq!(size(&c), Some((400, 300)));

    assert_eq!(c.handle(Event::CloseRequested { window: WIN }), Action::Exit { code: 0 });
    assert_eq!(c.exit_code(), Some(0));
    assert_eq!(gpu_calls, vec![Action::AcquireFrame, Action::DrawFrame]);
}

#[test]
fn resume_creates_one_session_and_repeats_are_no_ops() {
    let mut c = active(320, 200);
    assert_eq!(c.window(), Some(WIN));
    assert_eq!(c.resources(), Some(&5));
    assert_eq!(c.handle(Event::Resumed), Action::Nothing);
    let late = Event::SessionReady { window: 9, width: 10, height: 10, resources: 6 };
    assert_eq!(c.handle(late), Action::Nothing);
    assert_eq!(c.window(), Some(WIN));
    assert_eq!(c.resources(), Some(&5));
}

#[test]
fn suspend_releases_session_and_is_idempotent() {
    let mut c = active(320, 200);
    assert_eq!(c.handle(Event::Suspended), Action::Nothing);
    assert!(!c.has_session());
    assert_eq!(c.resources(), None);
    assert_eq!(c.handle(Event::Suspended), Action::Nothing);
    assert!(!c.has_session());
    assert_eq!(c.phase(), Phase::Running);
}

#[test]
fn suspend_then_resume_builds_a_fresh_session() {
    let mut c = active(320, 200);
    c.handle(Event::Suspended);
    assert_eq!(c.handle(Event::Resumed), Action::CreateSession);
    let ready = Event::SessionReady { window: 43, width: 640, height: 480, resources: 8 };
    assert_eq!(c.handle(ready), Action::RequestRedraw { window: 43 });
    assert_eq!(c.window(), Some(43));
    assert_eq!(size(&c), Some((640, 480)));
}

#[test]
fn zero_resize_never_changes_configuration() {
    let mut c = active(800, 600);
    for (w, h) in [(0, 600), (800, 0), (0, 0), (0, 1), (u32::MAX, 0)] {
        assert_eq!(c.handle(Event::Resized { window: WIN, width: w, height: h }), Action::Nothing);
        assert_eq!(size(&c), Some((800, 600)));
    }
}

#[test]
fn positive_resize_stores_exact_size() {
    let mut c = active(800, 600);
    let a = c.handle(Event::Resized { window: WIN, width: u32::MAX, height: 1 });
    assert_eq!(a, Action::Reconfigure { width: u32::MAX, height: 1 });
    assert_eq!(size(&c), Some((u32::MAX, 1)));
}

#[test]
fn events_for_another_window_are_ignored() {
    let mut c = active(800, 600);
    assert_eq!(c.handle(Event::Resized { window: 7, width: 10, height: 10 }), Action::Nothing);
    assert_eq!(c.handle(Event::RedrawRequested { window: 7 }), Action::Nothing);
    assert_eq!(c.handle(Event::CloseRequested { window: 7 }), Action::Nothing);
    assert_eq!(size(&c), Some((800, 600)));
    assert_eq!(c.phase(), Phase::Running);
}

#[test]
fn lost_surface_reconfigures_with_current_size() {
    let mut c = active(800, 600);
    c.handle(Event::Resized { window: WIN, width: 400, height: 300 });
    assert_eq!(c.handle(Event::RedrawRequested { window: WIN }), Action::AcquireFrame);
    let a = c.handle(Event::Acquired { outcome: Acquire::Lost });
    assert_eq!(a, Action::Reconfigure { width: 400, height: 300 });
    assert_eq!(size(&c), Some((400, 300)));
    assert_eq!(c.phase(), Phase::Running);
}

#[test]
fn other_acquire_failure_skips_frame() {
    let mut c = active(800, 600);
    assert_eq!(c.handle(Event::Acquired { outcome: Acquire::Other }), Action::SkipFrame);
    assert_eq!(c.phase(), Phase::Running);
    assert_eq!(c.handle(Event::RedrawRequested { window: WIN }), Action::AcquireFrame);
}

#[test]
fn out_of_memory_exits_with_one_and_draws_nothing_more() {
    let mut c = active(800, 600);
    let a = c.handle(Event::Acquired { outcome: Acquire::OutOfMemory });
    assert_eq!(a, Action::Exit { code: 1 });
    assert_eq!(c.exit_code(), Some(1));
    assert_eq!(c.handle(Event::RedrawRequested { window: WIN }), Action::Nothing);
    assert_eq!(c.handle(Event::Acquired { outcome: Acquire::Ready }), Action::Nothing);
    assert_eq!(c.handle(Event::Resized { window: WIN, width: 5, height: 5 }), Action::Nothing);
    assert_eq!(c.handle(Event::CloseRequested { window: WIN }), Action::Nothing);
    assert_eq!(c.exit_code(), Some(1));
}

#[test]
fn close_after_close_asks_for_one_exit() {
    let mut c = active(800, 600);
    assert_eq!(c.handle(Event::CloseRequested { window: WIN }), Action::Exit { code: 0 });
    assert_eq!(c.handle(Event::Acquired { outcome: Acquire::OutOfMemory }), Action::Nothing);
    assert_eq!(c.handle(Event::CloseRequested { window: WIN }), Action::Nothing);
    assert_eq!(c.exit_code(), Some(0));
}

#[test]
fn no_session_means_no_gpu_work() {
    let mut c: Controller<u32> = Controller::new();
    assert_eq!(c.handle(Event::Resized { window: WIN, width: 10, height: 10 }), Action::Nothing);
    assert_eq!(c.handle(Event::RedrawRequested { window: WIN }), Action::Nothing);
    assert_eq!(c.handle(Event::CloseRequested { window: WIN }), Action::Nothing);
    assert_eq!(c.handle(Event::Acquired { outcome: Acquire::Ready }), Action::Nothing);
    assert_eq!(c.handle(Event::Acquired { outcome: Acquire::Lost }), Action::Nothing);
    assert_eq!(c.handle(Event::Suspended), Action::Nothing);
    assert!(!c.has_session());
    assert_eq!(c.phase(), Phase::Running);
}

#[test]
fn zero_sized_session_is_refused() {
    let mut c: Controller<u32> = Controller::new();
    c.handle(Event::Resumed);
    let ready = Event::SessionReady { window: WIN, width: 0, height: 600, resources: 1 };
    assert_eq!(c.handle(ready), Action::Nothing);
    assert!(!c.has_session());
}

#[test]
fn destroy_releases_session_from_any_phase() {
    let mut c = active(800, 600);
    c.handle(Event::CloseRequested { window: WIN });
    assert_eq!(c.handle(Event::Destroyed), Action::Nothing);
    assert!(!c.has_session());
    assert_eq!(c.phase(), Phase::Destroyed);
    assert_eq!(c.handle(Event::Resumed), Action::Nothing);
    assert!(!c.has_session());
}

#[test]
fn surface_config_refuses_zero_dimensions() {
    assert_eq!(SurfaceConfig::new(0, 5), None);
    assert_eq!(SurfaceConfig::new(5, 0), None);
    assert_eq!(SurfaceConfig::new(800, 600), Some(SurfaceConfig { width: 800, height: 600 }));
}

#[test]
fn fallback_adapter_takes_first_with_formats() {
    assert_eq!(fallback_adapter(&vec![]), None);
    assert_eq!(fallback_adapter(&vec![0, 0, 0]), None);
    assert_eq!(fallback_adapter(&vec![3]), Some(0));
    assert_eq!(fallback_adapter(&vec![0, 2, 5]), Some(1));
    assert_eq!(fallback_adapter(&vec![0, 0, 1]), Some(2));
}
