use quad_ios::display::{CursorIcon, IosDisplay, SCREEN_HEIGHT, SCREEN_WIDTH};
use quad_ios::graphics::{negotiate_api, GlesVersion, GraphicsContext};
use quad_ios::slot::{FactorySlot, SlotError};

#[test]
fn fresh_display_reports_fixed_surface() {
    let display = IosDisplay::new();
    assert_eq!(display.screen_size(), (640, 800));
    assert_eq!((SCREEN_WIDTH, SCREEN_HEIGHT), (640, 800));
    assert_eq!(display.dpi_scale(), 1);
    assert!(!display.high_dpi());
    assert!(display.cursor_visible());
    assert_eq!(display.mouse_cursor(), CursorIcon::Default);
    assert!(!display.fullscreen());
    assert!(!display.quit_pending());
}

#[test]
fn scenario_clipboard_empty_before_set() {
    let mut display = IosDisplay::new();
    assert_eq!(display.clipboard_get(), None);
}

#[test]
fn clipboard_returns_what_was_set() {
    let mut display = IosDisplay::new();
    display.clipboard_set("hello");
    assert_eq!(display.clipboard_get(), Some("hello".to_string()));
    display.clipboard_set("world");
    assert_eq!(display.clipboard_get(), Some("world".to_string()));
    display.clipboard_set("");
    assert_eq!(display.clipboard_get(), None);
}

#[test]
fn scenario_cancel_clears_ordered_quit() {
    let mut display = IosDisplay::new();
    display.order_quit();
    assert!(display.quit_pending());
    display.cancel_quit();
    assert!(!display.quit_pending());
}

#[test]
fn request_quit_changes_nothing() {
    let mut display = IosDisplay::new();
    display.request_quit();
    assert!(!display.quit_pending());
    display.order_quit();
    display.request_quit();
    assert!(display.quit_pending());
}

#[test]
fn repeated_setters_match_single_calls() {
    let mut once = IosDisplay::new();
    once.set_fullscreen(true);
    once.show_mouse(false);
    once.set_mouse_cursor(CursorIcon::Wait);
    let mut twice = IosDisplay::new();
    twice.set_fullscreen(false);
    twice.set_fullscreen(true);
    twice.set_fullscreen(true);
    twice.show_mouse(false);
    twice.show_mouse(false);
    twice.set_mouse_cursor(CursorIcon::Wait);
    twice.set_mouse_cursor(CursorIcon::Wait);
    assert_eq!(once.fullscreen(), twice.fullscreen());
    assert_eq!(once.cursor_visible(), twice.cursor_visible());
    assert_eq!(once.mouse_cursor(), twice.mouse_cursor());
    assert!(twice.fullscreen());
    assert!(!twice.cursor_visible());
}

#[test]
fn unsupported_setters_are_accepted() {
    let mut display = IosDisplay::new();
    display.set_cursor_grab(true);
    display.set_window_size(10, 20);
    assert_eq!(display.screen_size(), (640, 800));
    assert!(display.cursor_visible());
    assert!(!display.fullscreen());
}

#[test]
fn negotiation_prefers_gles3_then_falls_back() {
    assert_eq!(negotiate_api(true, true), Some(GlesVersion::Gles3));
    assert_eq!(negotiate_api(true, false), Some(GlesVersion::Gles3));
    assert_eq!(negotiate_api(false, true), Some(GlesVersion::Gles2));
    assert_eq!(negotiate_api(false, false), None);
}

#[test]
fn graphics_context_keeps_its_api() {
    assert_eq!(GraphicsContext::new(GlesVersion::Gles2).api(), GlesVersion::Gles2);
    assert_eq!(GraphicsContext::new(GlesVersion::Gles3).api(), GlesVersion::Gles3);
}

#[test]
fn factory_slot_hands_out_once() {
    let mut slot: FactorySlot<u32> = FactorySlot::new();
    assert!(!slot.is_pending());
    assert_eq!(slot.take(), Err(SlotError::NotInstalled));
    assert_eq!(slot.install(7), Ok(()));
    assert!(slot.is_pending());
    assert_eq!(slot.install(8), Err(SlotError::AlreadyInstalled));
    assert_eq!(slot.take(), Ok(7));
    assert!(slot.is_consumed());
    assert_eq!(slot.take(), Err(SlotError::AlreadyConsumed));
    assert_eq!(slot.install(9), Err(SlotError::AlreadyInstalled));
    assert!(slot.is_consumed());
}
