use desktop_icons::control::{
    console_event_action, console_handler_outcome, console_handler_reply, hotkey_message_action,
    hotkey_registration_outcome, ConsoleAction, HotkeyAction, HOTKEY_MODIFIERS, MOD_ALT,
    MOD_CONTROL, MOD_NOREPEAT, WM_HOTKEY,
};

#[test]
fn console_events() {
    assert_eq!(console_event_action(0), ConsoleAction::Stop);
    assert_eq!(console_event_action(1), ConsoleAction::Stop);
    for event in [2, 5, 6] {
        assert_eq!(console_event_action(event), ConsoleAction::StopAndWait);
    }
    for event in [3, 4, 7, 100, u32::MAX] {
        assert_eq!(console_event_action(event), ConsoleAction::Pass);
    }
}

#[test]
fn console_replies() {
    assert_eq!(console_handler_reply(ConsoleAction::Pass), 0);
    assert_eq!(console_handler_reply(ConsoleAction::Stop), 1);
    assert_eq!(console_handler_reply(ConsoleAction::StopAndWait), 1);
}

#[test]
fn console_handler_registration() {
    assert!(console_handler_outcome(1).is_ok());
    assert_eq!(
        console_handler_outcome(0).unwrap_err().message(),
        "installing the console control handler failed"
    );
}

#[test]
fn hotkey_messages() {
    assert_eq!(hotkey_message_action(0, WM_HOTKEY, 1), HotkeyAction::Leave);
    assert_eq!(hotkey_message_action(-1, 0, 0), HotkeyAction::Leave);
    assert_eq!(hotkey_message_action(1, WM_HOTKEY, 1), HotkeyAction::Stop);
    assert_eq!(hotkey_message_action(1, WM_HOTKEY, 2), HotkeyAction::Wait);
    assert_eq!(hotkey_message_action(1, 0x0100, 1), HotkeyAction::Wait);
}

#[test]
fn hotkey_registration() {
    assert!(hotkey_registration_outcome(true).is_ok());
    assert_eq!(
        hotkey_registration_outcome(false).unwrap_err().message(),
        "registering Ctrl+Alt+Q failed; the shortcut may already be in use"
    );
    assert_eq!(HOTKEY_MODIFIERS, MOD_CONTROL | MOD_ALT | MOD_NOREPEAT);
}
