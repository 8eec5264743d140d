//! Application-wide enumerations: where the user is, how keys are read, which
//! background work can be requested, and which platform data comes from.
use vstd::prelude::*;

verus! {

/// The screen the application shows.
#[derive(PartialEq, Eq, Structural, Clone, Copy, Debug)]
pub enum Route {
    ConfigInterface,
    ActionSelect,
    DashboardViewDisplay,
}

/// Whether key presses go to a text entry box or are read as commands.
#[derive(PartialEq, Eq, Structural, Clone, Copy, Debug)]
pub enum InputMode {
    Normal,
    Edit,
}

/// Background work that a command can ask the application to start.
#[derive(PartialEq, Eq, Structural, Clone, Copy, Debug)]
pub enum AppEvent {
    LoadViewer,
    LoadCustomViews,
    LoadDashboardViews,
    PaginateDashboardView,
    LoadIssueOpData,
    UpdateIssue,
}

/// The service a pagination cursor belongs to; `Na` marks a cursor that has
/// not been used for any request yet.
#[derive(PartialEq, Eq, Structural, Clone, Copy, Debug)]
pub enum Platform {
    Na,
    Linear,
    Github,
}

} // verus!
