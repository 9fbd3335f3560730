use vstd::prelude::*;
use crate::error::Error;

verus! {

/// `CTRL_C_EVENT`.
pub const CTRL_C_EVENT: u32 = 0u32;
/// `CTRL_BREAK_EVENT`.
pub const CTRL_BREAK_EVENT: u32 = 1u32;
/// `CTRL_CLOSE_EVENT`.
pub const CTRL_CLOSE_EVENT: u32 = 2u32;
/// `CTRL_LOGOFF_EVENT`.
pub const CTRL_LOGOFF_EVENT: u32 = 5u32;
/// `CTRL_SHUTDOWN_EVENT`.
pub const CTRL_SHUTDOWN_EVENT: u32 = 6u32;

/// How many times the console handler polls, ten milliseconds apart, for the
/// layout to be restored before it lets the process end.
pub const RESTORE_WAIT_POLLS: u32 = 400u32;

/// What the console control handler does with an event.
#[derive(Clone, Copy, Debug, PartialEq, Eq, Structural)]
pub enum ConsoleAction {
    /// Not handled: the next handler gets the event.
    Pass,
    /// Stop the animation and report the event handled.
    Stop,
    /// Stop the animation and give the main thread time to restore the
    /// layout, because the process may end as soon as the handler returns.
    StopAndWait,
}

/// The action for a console control event.
pub open spec fn console_action(event: u32) -> ConsoleAction {
    if event == CTRL_C_EVENT || event == CTRL_BREAK_EVENT {
        ConsoleAction::Stop
    } else if event == CTRL_CLOSE_EVENT || event == CTRL_LOGOFF_EVENT || event
        == CTRL_SHUTDOWN_EVENT {
        ConsoleAction::StopAndWait
    } else {
        ConsoleAction::Pass
    }
}

/// Decides what the console control handler does with `event`.
pub fn console_event_action(event: u32) -> (action: ConsoleAction)
    ensures
        action == console_action(event),
{
    match event {
        0 | 1 => ConsoleAction::Stop,
        2 | 5 | 6 => ConsoleAction::StopAndWait,
        _ => ConsoleAction::Pass,
    }
}

/// The value that the handler returns to Windows: 1 when it handled the
/// event, 0 when the next handler should get it.
pub fn console_handler_reply(action: ConsoleAction) -> (reply: i32)
    ensures
        reply == (if action == ConsoleAction::Pass {
            0i32
        } else {
            1i32
        }),
{
    match action {
        ConsoleAction::Pass => 0,
        _ => 1,
    }
}

/// The console handler stops the animation for exactly the five console
/// events it knows, waits for the restore on the three that may end the
/// process, and handles no other event.
pub proof fn law_console_events(event: u32)
    ensures
        console_action(event) != ConsoleAction::Pass <==> (event == 0 || event == 1 || event == 2
            || event == 5 || event == 6),
        console_action(event) == ConsoleAction::StopAndWait <==> (event == 2 || event == 5 || event
            == 6),
{
}

/// Decides the outcome of registering the console control handler:
/// `SetConsoleCtrlHandler` returns 0 on failure.
pub fn console_handler_outcome(result: i32) -> (r: Result<(), Error>)
    ensures
        r is Ok <==> result != 0,
        r matches Err(e) ==> e@ == "installing the console control handler failed"@,
{
    if result == 0 {
        Err(Error::new("installing the console control handler failed"))
    } else {
        Ok(())
    }
}

/// The identifier of the exit hotkey.
pub const HOTKEY_ID: i32 = 1i32;
/// `MOD_ALT`.
pub const MOD_ALT: u32 = 0x0001u32;
/// `MOD_CONTROL`.
pub const MOD_CONTROL: u32 = 0x0002u32;
/// `MOD_NOREPEAT`.
pub const MOD_NOREPEAT: u32 = 0x4000u32;
/// The modifiers of the exit hotkey: Ctrl+Alt, without auto-repeat.
pub const HOTKEY_MODIFIERS: u32 = 0x4003u32;
/// `VK_Q`: the key of the exit hotkey.
pub const VK_Q: u32 = 0x51u32;
/// `WM_HOTKEY`.
pub const WM_HOTKEY: u32 = 0x0312u32;

/// What the hotkey thread does with the result of `GetMessageW`.
#[derive(Clone, Copy, Debug, PartialEq, Eq, Structural)]
pub enum HotkeyAction {
    /// The message loop ended or failed: leave the loop.
    Leave,
    /// The exit hotkey was pressed: stop the animation and leave the loop.
    Stop,
    /// Another message: keep waiting.
    Wait,
}

/// Decides what the hotkey thread does with a message: `status` is the value
/// `GetMessageW` returned, `message` and `w_param` the message's fields.
pub fn hotkey_message_action(status: i32, message: u32, w_param: usize) -> (action:
    HotkeyAction)
    ensures
        action == (if status <= 0 {
            HotkeyAction::Leave
        } else if message == WM_HOTKEY && w_param == HOTKEY_ID as usize {
            HotkeyAction::Stop
        } else {
            HotkeyAction::Wait
        }),
{
    if status <= 0 {
        HotkeyAction::Leave
    } else if message == WM_HOTKEY && w_param == 1 {
        HotkeyAction::Stop
    } else {
        HotkeyAction::Wait
    }
}

/// Decides the outcome of registering the exit hotkey.
pub fn hotkey_registration_outcome(registered: bool) -> (r: Result<(), Error>)
    ensures
        r is Ok <==> registered,
        r matches Err(e) ==> e@ == "registering Ctrl+Alt+Q failed; the shortcut may already be in use"@,
{
    if registered {
        Ok(())
    } else {
        Err(Error::new("registering Ctrl+Alt+Q failed; the shortcut may already be in use"))
    }
}

} // verus!
