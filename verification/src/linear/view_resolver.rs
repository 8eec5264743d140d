//! Filters of custom views and the pagination of the issues they select.
use vstd::prelude::*;
use crate::dispatch::{cursor_after, cursor_from_page, PageInfo};
use crate::linear::types::Issue;
use crate::util::cursor::{exhausted, is_exhausted, GraphQLCursor};

verus! {

/// The filters a Linear custom view can carry, and the due-date categories
/// an issue falls into.
#[derive(PartialEq, Eq, Structural, Clone, Copy, Debug, Hash)]
pub enum FilterType {
    SelectedTeam,
    AllTeams,
    Content,
    SelectedState,
    SelectedCreator,
    SelectedLabel,
    SelectedAssignee,
    SelectedProject,
    SelectedPriority,
    SelectedSubscriber,
    DueToday,
    Overdue,
    HasDueDate,
    DueSoon,
    NoDueDate,
    NoLabel,
    NoAssignee,
    NoProject,
}

/// What the issue fetch loop of a view does next.
#[derive(PartialEq, Eq, Structural, Clone, Copy, Debug)]
pub enum FetchAction {
    /// Request the next page of issues.
    Request,
    /// Return the issues found so far.
    Stop,
}

/// The fetch loop stops as soon as the query has no page left, and, once a
/// request has been made, when at least a page's worth of issues was found.
pub open spec fn fetch_action(
    cursor: GraphQLCursor,
    found: nat,
    page_size: nat,
    requested: bool,
) -> FetchAction {
    if exhausted(cursor) || (requested && found >= page_size) {
        FetchAction::Stop
    } else {
        FetchAction::Request
    }
}

pub fn next_fetch_action(
    cursor: &GraphQLCursor,
    found: usize,
    page_size: u32,
    requested: bool,
) -> (r: FetchAction)
    ensures
        r == fetch_action(*cursor, found as nat, page_size as nat, requested),
{
    if is_exhausted(cursor) {
        FetchAction::Stop
    } else if requested && found >= page_size as usize {
        FetchAction::Stop
    } else {
        FetchAction::Request
    }
}

/// A page of a view's issues arrived: its issues follow those found so far,
/// one more request was made, and the cursor moves to the end of the page.
pub fn receive_view_page(
    found: &mut Vec<Issue>,
    request_num: &mut u32,
    cursor: &mut GraphQLCursor,
    page: Vec<Issue>,
    info: PageInfo,
)
    requires
        *old(request_num) < u32::MAX,
    ensures
        final(found)@ == old(found)@ + page@,
        *final(request_num) == *old(request_num) + 1,
        *final(cursor) == cursor_after(info),
{
    let mut page = page;
    found.append(&mut page);
    *request_num = *request_num + 1;
    *cursor = cursor_from_page(info);
}

} // verus!
