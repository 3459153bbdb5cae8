use std::cell::RefCell;
use std::rc::Rc;

use quad_ios::bridge::{Bridge, LaunchError};
use quad_ios::graphics::GlesVersion;
use quad_ios::payload::{Context, EventHandler, WindowPayload};
use quad_ios::slot::SlotError;

type Log = Rc<RefCell<Vec<&'static str>>>;

struct Recorder {
    log: Log,
    api_seen: Option<GlesVersion>,
}

impl EventHandler for Recorder {
    fn update(&mut self, ctx: &mut Context) {
        self.api_seen = Some(ctx.graphics.api());
        self.log.borrow_mut().push("update");
    }

    fn draw(&mut self, _ctx: &mut Context) {
        self.log.borrow_mut().push("draw");
    }
}

fn as_factory<F: FnOnce(&mut Context) -> Recorder>(f: F) -> F {
    f
}

fn recording_factory(log: &Log) -> impl FnOnce(&mut Context) -> Recorder {
    let log = log.clone();
    as_factory(move |_ctx: &mut Context| {
        log.borrow_mut().push("factory");
        Recorder { log, api_seen: None }
    })
}

fn count(log: &Log, what: &str) -> usize {
    log.borrow().iter().filter(|e| **e == what).count()
}

#[test]
fn scenario_launch_leaves_payload_uninitialized() {
    let log: Log = Rc::new(RefCell::new(Vec::new()));
    let mut bridge = Bridge::new();
    assert_eq!(bridge.run(recording_factory(&log)), Ok(()));
    assert!(bridge.window().is_none());
    assert_eq!(bridge.did_finish_launching(Some(GlesVersion::Gles3)), Ok(()));
    let window = bridge.window().unwrap();
    assert!(!window.is_running());
    assert!(window.has_pending_factory());
    assert_eq!(window.api(), GlesVersion::Gles3);
    assert!(log.borrow().is_empty());
}

#[test]
fn scenario_first_frame_builds_handler_then_updates_and_draws() {
    let log: Log = Rc::new(RefCell::new(Vec::new()));
    let mut bridge = Bridge::new();
    bridge.run(recording_factory(&log)).unwrap();
    bridge.did_finish_launching(Some(GlesVersion::Gles3)).unwrap();
    bridge.draw_in_rect();
    let window = bridge.window().unwrap();
    assert!(window.is_running());
    assert!(!window.has_pending_factory());
    assert_eq!(*log.borrow(), vec!["factory", "update", "draw"]);
}

#[test]
fn scenario_later_frames_add_one_pair_each() {
    let log: Log = Rc::new(RefCell::new(Vec::new()));
    let mut bridge = Bridge::new();
    bridge.run(recording_factory(&log)).unwrap();
    bridge.did_finish_launching(Some(GlesVersion::Gles3)).unwrap();
    bridge.draw_in_rect();
    for frame in 2..=4usize {
        bridge.draw_in_rect();
        assert_eq!(count(&log, "update"), frame);
        assert_eq!(count(&log, "draw"), frame);
        assert_eq!(count(&log, "factory"), 1);
    }
    assert_eq!(
        *log.borrow(),
        vec!["factory", "update", "draw", "update", "draw", "update", "draw", "update", "draw"]
    );
    assert!(bridge.window().unwrap().is_running());
}

#[test]
fn update_comes_before_draw_in_every_frame() {
    let log: Log = Rc::new(RefCell::new(Vec::new()));
    let mut bridge = Bridge::new();
    bridge.run(recording_factory(&log)).unwrap();
    bridge.did_finish_launching(Some(GlesVersion::Gles2)).unwrap();
    for _ in 0..10 {
        bridge.draw_in_rect();
    }
    let log = log.borrow();
    assert_eq!(log.len(), 21);
    for pair in log[1..].chunks(2) {
        assert_eq!(pair, ["update", "draw"]);
    }
}

#[test]
fn handler_sees_negotiated_api() {
    let log: Log = Rc::new(RefCell::new(Vec::new()));
    let mut bridge = Bridge::new();
    bridge.run(recording_factory(&log)).unwrap();
    bridge.did_finish_launching(Some(GlesVersion::Gles2)).unwrap();
    bridge.draw_in_rect();
    let window = bridge.window_mut().unwrap();
    let (ctx, handler) = window.context().unwrap();
    assert_eq!(handler.api_seen, Some(GlesVersion::Gles2));
    assert_eq!(ctx.graphics.api(), GlesVersion::Gles2);
}

#[test]
fn second_run_is_refused() {
    let log: Log = Rc::new(RefCell::new(Vec::new()));
    let mut bridge = Bridge::new();
    assert_eq!(bridge.run(recording_factory(&log)), Ok(()));
    assert_eq!(bridge.run(recording_factory(&log)), Err(SlotError::AlreadyInstalled));
    assert!(bridge.is_installed());
}

#[test]
fn launch_without_rendering_api_fails_and_keeps_factory() {
    let log: Log = Rc::new(RefCell::new(Vec::new()));
    let mut bridge = Bridge::new();
    bridge.run(recording_factory(&log)).unwrap();
    assert_eq!(bridge.did_finish_launching(None), Err(LaunchError::NoRenderingApi));
    assert!(bridge.window().is_none());
    assert_eq!(bridge.did_finish_launching(Some(GlesVersion::Gles2)), Ok(()));
}

#[test]
fn context_absent_before_first_frame() {
    let log: Log = Rc::new(RefCell::new(Vec::new()));
    let mut payload = WindowPayload::new(recording_factory(&log), GlesVersion::Gles3);
    assert!(payload.context().is_none());
    payload.frame();
    assert!(payload.context().is_some());
    assert_eq!(count(&log, "factory"), 1);
}

#[test]
fn factory_may_change_display_through_context() {
    let mut payload = WindowPayload::new(
        as_factory(|ctx: &mut Context| {
            ctx.display.order_quit();
            ctx.display.set_fullscreen(true);
            Recorder { log: Rc::new(RefCell::new(Vec::new())), api_seen: None }
        }),
        GlesVersion::Gles3,
    );
    assert!(!payload.display().quit_pending());
    payload.frame();
    assert!(payload.display().quit_pending());
    assert!(payload.display().fullscreen());
}

#[test]
fn display_requests_before_first_frame_keep_payload_uninitialized() {
    let log: Log = Rc::new(RefCell::new(Vec::new()));
    let mut payload = WindowPayload::new(recording_factory(&log), GlesVersion::Gles3);
    payload.display_mut().set_fullscreen(false);
    payload.display_mut().set_fullscreen(false);
    assert!(!payload.is_running());
    assert!(payload.has_pending_factory());
    assert!(!payload.display().fullscreen());
    assert!(log.borrow().is_empty());
    payload.frame();
    assert!(payload.is_running());
    assert!(!payload.display().fullscreen());
}
