//! The window manager: what to do with each message it receives.

use vstd::prelude::*;

verus! {

/// What the window manager can be asked to do.
#[derive(Debug, Clone, Copy, PartialEq, Eq, Structural)]
pub enum WindowMessage {
    /// Hide the window in the tray.
    MinimizeToTray,
    /// Bring the window back from the tray.
    RestoreFromTray,
    /// End.
    Exit,
}

/// What the window manager does next.
#[derive(Debug, Clone, Copy, PartialEq, Eq, Structural)]
pub enum WindowAction {
    /// Hide the window, then wait for the next message.
    Minimize,
    /// Show the window, then wait for the next message.
    Restore,
    /// Stop waiting for messages.
    Stop,
}

/// What the window manager does with what it received: `None` stands for a
/// channel that nobody can send on any more.
pub open spec fn window_action(received: Option<WindowMessage>) -> WindowAction {
    match received {
        Some(WindowMessage::MinimizeToTray) => WindowAction::Minimize,
        Some(WindowMessage::RestoreFromTray) => WindowAction::Restore,
        Some(WindowMessage::Exit) => WindowAction::Stop,
        None => WindowAction::Stop,
    }
}

/// What the window manager does with what it received.
pub fn window_manager_step(received: Option<WindowMessage>) -> (action: WindowAction)
    ensures
        action == window_action(received),
{
    match received {
        Some(WindowMessage::MinimizeToTray) => WindowAction::Minimize,
        Some(WindowMessage::RestoreFromTray) => WindowAction::Restore,
        Some(WindowMessage::Exit) => WindowAction::Stop,
        None => WindowAction::Stop,
    }
}

} // verus!
