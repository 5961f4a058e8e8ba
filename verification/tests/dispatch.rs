use menu_dispatch::commands::application_table;
use menu_dispatch::commands::about_window_config;
use menu_dispatch::commands::Command;
use menu_dispatch::commands::ThemeMode;

fn expect_navigate(cmd: Command, path: &str) {
    match cmd {
        Command::Navigate(p) => assert_eq!(p, path),
        _ => panic!("expected Navigate({path})"),
    }
}

fn expect_theme(cmd: Command, mode: ThemeMode) {
    match cmd {
        Command::SetTheme(m) => assert_eq!(m, mode),
        _ => panic!("expected SetTheme"),
    }
}

#[test]
fn resolve_navigation_identifiers() {
    let table = application_table();
    expect_navigate(table.resolve("home"), "/");
    expect_navigate(table.resolve("clipboard"), "/clipboard");
    expect_navigate(table.resolve("dialog"), "/dialog");
    expect_navigate(table.resolve("filesystem"), "/filesystem");
    expect_navigate(table.resolve("notifications"), "/notifications");
    expect_navigate(table.resolve("os-info"), "/os-info");
}

#[test]
fn resolve_theme_identifiers() {
    let table = application_table();
    expect_theme(table.resolve("theme-light"), ThemeMode::Light);
    expect_theme(table.resolve("theme-dark"), ThemeMode::Dark);
    expect_theme(table.resolve("theme-system"), ThemeMode::System);
}

#[test]
fn resolve_about_identifier() {
    let table = application_table();
    match table.resolve("about") {
        Command::ShowSingletonWindow(name, config) => {
            assert_eq!(name, "about");
            assert_eq!(config.width, 550);
            assert_eq!(config.height, 850);
            assert!(!config.resizable);
            assert!(!config.minimizable);
            assert!(!config.maximizable);
            assert!(config.centered);
            assert_eq!(config.title, "About Tauri App Boilerplate");
            assert_eq!(config.content, "/about");
        },
        _ => panic!("expected ShowSingletonWindow"),
    }
}

#[test]
fn resolve_unknown_identifier_is_noop() {
    let table = application_table();
    assert!(matches!(table.resolve("does-not-exist"), Command::NoOp));
    assert!(matches!(table.resolve(""), Command::NoOp));
    assert!(matches!(table.resolve("About"), Command::NoOp));
    assert!(matches!(table.resolve("theme-blue"), Command::NoOp));
}

#[test]
fn theme_mode_payloads() {
    assert_eq!(ThemeMode::Light.as_str(), "light");
    assert_eq!(ThemeMode::Dark.as_str(), "dark");
    assert_eq!(ThemeMode::System.as_str(), "system");
}

#[test]
fn about_window_configuration() {
    let c = about_window_config();
    assert_eq!(c.width, 550);
    assert_eq!(c.height, 850);
    assert!(!c.resizable && !c.minimizable && !c.maximizable && c.centered);
    assert_eq!(c.content, "/about");
}
