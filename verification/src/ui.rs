//! What the program's windows and its tray icon decide without drawing
//! anything.

pub mod theme;
pub mod tray;
pub mod window;

use vstd::prelude::*;

verus! {

/// What a status line is about.
#[derive(Debug, Clone, Copy, PartialEq, Eq, Structural)]
pub enum StatusType {
    Success,
    Warning,
    Error,
    Info,
}

/// One entry of the sidebar.
#[derive(Debug, Clone)]
pub struct SidebarItem {
    pub text: String,
    pub icon: Option<&'static str>,
    pub selected: bool,
}

/// The name of the theme colour in which a status is shown.
pub fn status_color_name(status_type: StatusType) -> (name: &'static str)
    ensures
        name@ == (match status_type {
            StatusType::Success => "success"@,
            StatusType::Warning => "warning"@,
            StatusType::Error => "error"@,
            StatusType::Info => "primary"@,
        }),
{
    match status_type {
        StatusType::Success => "success",
        StatusType::Warning => "warning",
        StatusType::Error => "error",
        StatusType::Info => "primary",
    }
}

} // verus!
