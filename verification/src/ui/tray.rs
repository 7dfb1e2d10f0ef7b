//! The tray icon: which action an entry of its menu stands for, and where
//! its icon is looked for.

use vstd::prelude::*;

verus! {

/// What the tray icon can ask of the program.
#[derive(Debug, Clone, Copy, PartialEq, Eq, Structural)]
pub enum TrayAction {
    /// Show the page about this machine.
    ShowInfo,
    /// Bring the window back.
    Restore,
    /// End the program.
    Exit,
}

/// The action of a menu entry that was chosen: `is_info`, `is_restore` and
/// `is_exit` say whether it is the entry of that name. An entry that is
/// none of them asks for nothing.
pub open spec fn tray_action(is_info: bool, is_restore: bool, is_exit: bool) -> Option<TrayAction> {
    if is_info {
        Some(TrayAction::ShowInfo)
    } else if is_restore {
        Some(TrayAction::Restore)
    } else if is_exit {
        Some(TrayAction::Exit)
    } else {
        None
    }
}

/// The action of a menu entry that was chosen.
pub fn action_for_menu_entry(is_info: bool, is_restore: bool, is_exit: bool) -> (action: Option<
    TrayAction,
>)
    ensures
        action == tray_action(is_info, is_restore, is_exit),
{
    if is_info {
        Some(TrayAction::ShowInfo)
    } else if is_restore {
        Some(TrayAction::Restore)
    } else if is_exit {
        Some(TrayAction::Exit)
    } else {
        None
    }
}

/// The first of the places, in the order in which they are tried, at which
/// the icon exists.
pub fn first_existing(exists: &Vec<bool>) -> (found: Option<usize>)
    ensures
        found is None <==> forall|at: int| 0 <= at < exists@.len() ==> !exists@[at],
        found matches Some(at) ==> at < exists@.len() && exists@[at as int] && forall|before: int|
            0 <= before < at ==> !exists@[before],
{
    let mut at: usize = 0;
    while at < exists.len()
        invariant
            at <= exists@.len(),
            forall|before: int| 0 <= before < at ==> !exists@[before],
        decreases exists@.len() - at,
    {
        if exists[at] {
            return Some(at);
        }
        at = at + 1;
    }
    None
}

} // verus!
