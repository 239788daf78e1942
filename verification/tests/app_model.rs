use openhub::app_model::{describe, FocusedWindow, ForegroundApp};

#[test]
fn an_unnamed_app_is_shown_by_its_id() {
    let app = ForegroundApp::unnamed("steam_app_1599340".into());
    assert_eq!(app.id, "steam_app_1599340");
    assert_eq!(app.display_name, "steam_app_1599340");
    let window = FocusedWindow::app(app.clone());
    assert_eq!(window.app, app);
    assert_eq!(window.title, None);
    assert_eq!(window.pid, None);
    assert_eq!(window.steam_app_id, None);
}

#[test]
fn an_empty_class_means_nothing_is_focused() {
    assert_eq!(describe(String::new(), "Title".into(), 42), None);
}

#[test]
fn an_empty_title_and_a_zero_pid_mean_unknown() {
    let window = describe("firefox".into(), String::new(), 0).expect("focused");
    assert_eq!(window.app.id, "firefox");
    assert_eq!(window.title, None);
    assert_eq!(window.pid, None);

    let window = describe("firefox".into(), "Mozilla Firefox".into(), 1234).expect("focused");
    assert_eq!(window.title.as_deref(), Some("Mozilla Firefox"));
    assert_eq!(window.pid, Some(1234));
    assert_eq!(window.steam_app_id, None);
}
