use notification_tray::tray::{
    menu_command, notifications_window, window_label, MenuCommand, TrayAction, TrayController,
    TrayEvent,
};

#[test]
fn two_left_clicks_create_once_then_focus() {
    let mut tray = TrayController::new();
    assert!(!tray.has_window());
    assert_eq!(tray.on_event(TrayEvent::LeftClick), TrayAction::CreateWindow);
    assert_eq!(tray.on_event(TrayEvent::LeftClick), TrayAction::ShowAndFocus);
    assert!(tray.has_window());
}

#[test]
fn window_is_created_again_after_close() {
    let mut tray = TrayController::new();
    tray.on_event(TrayEvent::LeftClick);
    assert_eq!(tray.on_event(TrayEvent::WindowClosed), TrayAction::Nothing);
    assert!(!tray.has_window());
    assert_eq!(tray.on_event(TrayEvent::LeftClick), TrayAction::CreateWindow);
}

#[test]
fn quit_exits_with_zero_in_every_state() {
    let mut tray = TrayController::new();
    assert_eq!(tray.on_event(TrayEvent::Menu(MenuCommand::Quit)), TrayAction::Exit(0));
    assert!(!tray.has_window());
    tray.on_event(TrayEvent::LeftClick);
    assert_eq!(tray.on_event(TrayEvent::Menu(MenuCommand::Quit)), TrayAction::Exit(0));
    assert!(tray.has_window());
}

#[test]
fn right_click_is_only_logged() {
    let mut tray = TrayController::new();
    assert_eq!(tray.on_event(TrayEvent::RightClick), TrayAction::LogRightClick);
    assert!(!tray.has_window());
    assert_eq!(tray.on_event(TrayEvent::OtherPointer), TrayAction::Nothing);
    assert_eq!(tray.on_event(TrayEvent::Menu(MenuCommand::Unknown)), TrayAction::Nothing);
    assert!(!tray.has_window());
}

#[test]
fn menu_identifiers() {
    assert_eq!(menu_command("quit"), MenuCommand::Quit);
    assert_eq!(menu_command("Quit"), MenuCommand::Unknown);
    assert_eq!(menu_command(""), MenuCommand::Unknown);
    assert_eq!(menu_command("quit "), MenuCommand::Unknown);
}

#[test]
fn notifications_window_shape() {
    let spec = notifications_window();
    assert_eq!(spec.label, "notifications");
    assert_eq!(spec.label, window_label());
    assert_eq!(spec.url, "/index.html");
    assert_eq!(spec.title, "Notifications");
    assert_eq!((spec.width, spec.height), (400, 600));
    assert!(spec.resizable);
}
