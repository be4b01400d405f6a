use eink::window::{
    handled_message, hidden_window, message_action, subscribed_events, taskbar_plan,
    window_guard_destroys, MessageAction, WindowError, ABS_ALWAYSONTOP, ABS_AUTOHIDE,
    EVENT_OBJECT_FOCUS, EVENT_OBJECT_LOCATIONCHANGE, WM_CREATE, WM_HOTKEY, WM_NULL, WM_QUIT,
};

#[test]
fn event_subscriptions() {
    let v = subscribed_events();
    assert_eq!(v.len(), 7);
    assert_eq!(v[0], EVENT_OBJECT_LOCATIONCHANGE);
    assert_eq!(v[6], EVENT_OBJECT_FOCUS);
}

#[test]
fn message_actions() {
    let settings = 0xC0F0;
    assert_eq!(message_action(settings, settings), MessageAction::SettingsChanged);
    assert_eq!(message_action(WM_CREATE, settings), MessageAction::SubscribeToEvents);
    assert_eq!(message_action(WM_HOTKEY, settings), MessageAction::Hotkey);
    assert_eq!(message_action(WM_NULL, settings), MessageAction::Null);
    assert_eq!(message_action(WM_QUIT, settings), MessageAction::Quit);
    assert_eq!(message_action(0x0400, settings), MessageAction::Default);
    assert_eq!(message_action(WM_QUIT, WM_QUIT), MessageAction::SettingsChanged);
}

#[test]
fn message_loop_results() {
    assert_eq!(handled_message(false, WM_CREATE, 0xC0F0), None);
    assert_eq!(handled_message(true, WM_QUIT, 0xC0F0), None);
    assert_eq!(handled_message(true, WM_CREATE, 0xC0F0), Some(WM_CREATE));
    assert_eq!(handled_message(true, WM_QUIT, WM_QUIT), Some(WM_QUIT));
}

#[test]
fn window_guard_and_creation() {
    assert!(window_guard_destroys(-1));
    assert!(!window_guard_destroys(0));
    assert!(window_guard_destroys(0x1234));
    assert_eq!(hidden_window(0), Err(WindowError::CannotCreateWindow));
    assert_eq!(hidden_window(42), Ok(42));
}

#[test]
fn taskbar_plans() {
    let h = taskbar_plan(true);
    assert_eq!((h.appbar_state, h.show_window, h.alpha, h.repeats, h.pause_first), (ABS_AUTOHIDE, false, 0, 10, true));
    let s = taskbar_plan(false);
    assert_eq!((s.appbar_state, s.show_window, s.alpha, s.repeats, s.pause_first), (ABS_ALWAYSONTOP, true, 2, 1, false));
}
