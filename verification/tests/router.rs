use menu_dispatch::commands::application_table;
use menu_dispatch::router::CommandRouter;
use menu_dispatch::router::WindowAction;
use menu_dispatch::sink::EventSink;

fn new_router() -> CommandRouter {
    CommandRouter::new(application_table())
}

#[test]
fn theme_dark_emits_set_theme_and_touches_no_window() {
    let mut router = new_router();
    let mut sink = EventSink::new();
    let act = router.activate(&mut sink, "theme-dark");
    assert!(matches!(act, WindowAction::Nothing));
    assert_eq!(sink.count(), 1);
    let ev = sink.event(0);
    assert_eq!(ev.topic, "set-theme");
    assert_eq!(ev.payload, "dark");
    assert_eq!(router.live_windows(), 0);
}

#[test]
fn navigation_emits_navigate_with_path() {
    let mut router = new_router();
    let mut sink = EventSink::new();
    router.activate(&mut sink, "home");
    router.activate(&mut sink, "clipboard");
    assert_eq!(sink.count(), 2);
    assert_eq!(sink.event(0).topic, "navigate");
    assert_eq!(sink.event(0).payload, "/");
    assert_eq!(sink.event(1).topic, "navigate");
    assert_eq!(sink.event(1).payload, "/clipboard");
    assert_eq!(router.live_windows(), 0);
}

#[test]
fn about_creates_one_window_then_focuses_it() {
    let mut router = new_router();
    let mut sink = EventSink::new();
    let first = router.activate(&mut sink, "about");
    let created_handle = match first {
        WindowAction::Create { name, handle, config } => {
            assert_eq!(name, "about");
            assert_eq!(config.width, 550);
            assert_eq!(config.height, 850);
            assert!(!config.resizable);
            assert!(!config.minimizable);
            assert!(!config.maximizable);
            assert!(config.centered);
            handle
        },
        _ => panic!("first activation must create the window"),
    };
    assert_eq!(router.live_windows(), 1);
    let second = router.activate(&mut sink, "about");
    match second {
        WindowAction::Focus { handle } => assert_eq!(handle, created_handle),
        _ => panic!("second activation must focus, not create"),
    }
    assert_eq!(router.live_windows(), 1);
    assert_eq!(sink.count(), 0);
}

#[test]
fn unknown_identifier_has_no_effect() {
    let mut router = new_router();
    let mut sink = EventSink::new();
    let act = router.activate(&mut sink, "does-not-exist");
    assert!(matches!(act, WindowAction::Nothing));
    assert_eq!(sink.count(), 0);
    assert_eq!(router.live_windows(), 0);
}

#[test]
fn window_close_notification_allows_recreation() {
    let mut router = new_router();
    let mut sink = EventSink::new();
    let first = router.activate(&mut sink, "about");
    let h1 = match first {
        WindowAction::Create { handle, .. } => handle,
        _ => panic!("expected creation"),
    };
    router.window_closed("about");
    assert_eq!(router.live_windows(), 0);
    let again = router.activate(&mut sink, "about");
    match again {
        WindowAction::Create { handle, .. } => assert_ne!(handle, h1),
        _ => panic!("expected a fresh window after close"),
    }
}

#[test]
fn sink_records_events_in_emission_order() {
    let mut sink = EventSink::new();
    assert_eq!(sink.count(), 0);
    sink.emit("navigate".to_owned(), "/dialog".to_owned());
    sink.emit("set-theme".to_owned(), "light".to_owned());
    assert_eq!(sink.count(), 2);
    assert_eq!(sink.event(0).topic, "navigate");
    assert_eq!(sink.event(0).payload, "/dialog");
    assert_eq!(sink.event(1).topic, "set-theme");
    assert_eq!(sink.event(1).payload, "light");
}
