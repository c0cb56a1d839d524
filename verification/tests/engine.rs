use lark::engine::application::ApplicationContext;
use lark::engine::graphics::{Graphices, WindowEventKind};
use lark::engine::settings::{Position, Settings, Size};
use lark::engine::window::{center_window_postion, centering_fits_window, MonitorSize};
use lark::{hello_world, AppKind};

#[test]
fn default_settings() {
    let s = Settings::default();
    assert!(!s.maximized);
    assert!(!s.fullscreen);
    assert!(s.resizable);
    assert_eq!(s.initial_window_size, None);
    assert_eq!(s.initial_window_postion, None);
}

#[test]
fn centers_default_size_window() {
    let mut s = Settings::default();
    center_window_postion(Some(MonitorSize { width: 1920, height: 1080 }), &mut s);
    assert_eq!(s.initial_window_postion, Some(Position { x: 560, y: 240 }));
    assert_eq!(s.initial_window_size, None);
}

#[test]
fn centers_given_size_window_rounding_down() {
    let mut s = Settings::default();
    s.initial_window_size = Some(Size { x: 1000, y: 501 });
    center_window_postion(Some(MonitorSize { width: 1921, height: 1080 }), &mut s);
    assert_eq!(s.initial_window_postion, Some(Position { x: 460, y: 289 }));
    assert_eq!(s.initial_window_size, Some(Size { x: 1000, y: 501 }));
}

#[test]
fn no_monitor_leaves_settings() {
    let mut s = Settings::default();
    center_window_postion(None, &mut s);
    assert_eq!(s, Settings::default());
}

#[test]
fn zero_sized_monitor_leaves_settings() {
    let mut s = Settings::default();
    center_window_postion(Some(MonitorSize { width: 0, height: 1080 }), &mut s);
    assert_eq!(s, Settings::default());
    center_window_postion(Some(MonitorSize { width: 1920, height: 0 }), &mut s);
    assert_eq!(s, Settings::default());
}

#[test]
fn window_filling_the_monitor_sits_at_origin() {
    let mut s = Settings::default();
    center_window_postion(Some(MonitorSize { width: 800, height: 600 }), &mut s);
    assert_eq!(s.initial_window_postion, Some(Position { x: 0, y: 0 }));
}

#[test]
fn graphics_starts_open() {
    assert!(!Graphices::new().is_close());
}

#[test]
fn close_request_follows_the_application() {
    let mut g = Graphices::new();
    g.on_event(&WindowEventKind::CloseRequested { app_allows_close: false });
    assert!(!g.is_close());
    g.on_event(&WindowEventKind::CloseRequested { app_allows_close: true });
    assert!(g.is_close());
    g.on_event(&WindowEventKind::CloseRequested { app_allows_close: false });
    assert!(!g.is_close());
}

#[test]
fn destroyed_window_closes() {
    let mut g = Graphices::new();
    g.on_event(&WindowEventKind::Destroyed);
    assert!(g.is_close());
    g.on_event(&WindowEventKind::Other);
    assert!(g.is_close());
}

#[test]
fn other_events_change_nothing() {
    let mut g = Graphices::new();
    g.on_event(&WindowEventKind::Other);
    assert!(!g.is_close());
}

#[test]
fn hello_world_launches_test_app() {
    let launch = hello_world();
    assert_eq!(launch.app_name, "test");
    assert_eq!(launch.settings, Settings::default());
    assert_eq!(launch.app, AppKind::HelloWorld);
}

#[test]
fn application_context_is_empty() {
    let _ctx = ApplicationContext {};
}

#[test]
fn centering_fits_window_checks_the_window_size() {
    let s = Settings::default();
    assert!(centering_fits_window(None, &s));
    assert!(centering_fits_window(Some(MonitorSize { width: 0, height: 0 }), &s));
    assert!(centering_fits_window(Some(MonitorSize { width: 800, height: 600 }), &s));
    assert!(!centering_fits_window(Some(MonitorSize { width: 799, height: 600 }), &s));
    let mut small = Settings::default();
    small.initial_window_size = Some(Size { x: 100, y: 700 });
    assert!(!centering_fits_window(Some(MonitorSize { width: 1024, height: 600 }), &small));
}

#[test]
fn close_follows_the_last_deciding_event() {
    let events = [
        WindowEventKind::Other,
        WindowEventKind::Destroyed,
        WindowEventKind::Other,
        WindowEventKind::CloseRequested { app_allows_close: false },
        WindowEventKind::Other,
        WindowEventKind::Other,
    ];
    let mut g = Graphices::new();
    for e in events.iter() {
        g.on_event(e);
    }
    assert!(!g.is_close());
    g.on_event(&WindowEventKind::CloseRequested { app_allows_close: true });
    g.on_event(&WindowEventKind::Other);
    assert!(g.is_close());
}
