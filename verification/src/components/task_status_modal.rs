//! The modal telling which long task is running.
use vstd::prelude::*;
use crate::components::token_entry::dots;

verus! {

#[derive(PartialEq, Eq, Structural, Clone, Copy, Debug)]
pub enum TaskStatus {
    LoadingTeamTimezones,
}

/// The modal's text: the task's name followed by one to three dots.
pub fn render(task: TaskStatus, loader_tick: u16) -> (r: String)
    ensures
        r@ == "Loading Team Timezones"@ + dots(loader_tick),
{
    let task_text = match task {
        TaskStatus::LoadingTeamTimezones => String::from_str("Loading Team Timezones"),
    };
    let d = if loader_tick % 3 == 0 {
        "."
    } else if loader_tick % 3 == 1 {
        ".."
    } else {
        "..."
    };
    task_text.concat(d)
}

} // verus!
