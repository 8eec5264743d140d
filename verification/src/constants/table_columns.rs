//! Column definitions of the tables the dashboard draws.
use vstd::prelude::*;

verus! {

/// A table column: its header, the text shown for an empty cell, the
/// smallest width it needs, the most lines a cell may take, and its share of
/// the width left once every column has its minimum.
#[derive(Clone, Copy, Debug)]
pub struct TableColumn<'a> {
    pub label: &'a str,
    pub null_fallback: &'a str,
    pub min_width: u16,
    pub max_height: u16,
    pub priority: u16,
}

/// Whether `c` is the column with these header, fallback and sizes.
pub open spec fn column_is(c: TableColumn, label: &str, null_fallback: &str, min_width: u16, max_height: u16, priority: u16) -> bool {
    &&& c.label@ == label@
    &&& c.null_fallback@ == null_fallback@
    &&& c.min_width == min_width
    &&& c.max_height == max_height
    &&& c.priority == priority
}

fn column<'a>(label: &'a str, null_fallback: &'a str, min_width: u16, max_height: u16, priority: u16) -> (r: TableColumn<'a>)
    ensures
        r.label == label,
        r.null_fallback == null_fallback,
        r.min_width == min_width,
        r.max_height == max_height,
        r.priority == priority,
{
    TableColumn { label, null_fallback, min_width, max_height, priority }
}

/// The columns of a dashboard view panel.
pub open spec fn view_panel_spec() -> Seq<TableColumn<'static>> {
    seq![
        TableColumn { label: "#", null_fallback: "", min_width: 4, max_height: 1, priority: 1 },
        TableColumn { label: "Title", null_fallback: "", min_width: 5, max_height: 2, priority: 3 },
        TableColumn { label: "State", null_fallback: "", min_width: 5, max_height: 1, priority: 2 },
        TableColumn { label: "Desc", null_fallback: "", min_width: 4, max_height: 3, priority: 3 },
        TableColumn { label: "createdAt", null_fallback: "", min_width: 9, max_height: 1, priority: 2 },
    ]
}

/// Columns of a dashboard view panel (the issues of a custom view).
pub fn view_panel_columns() -> (r: Vec<TableColumn<'static>>)
    ensures
        r@ == view_panel_spec(),
        r@.len() == 5,
        column_is(r@[0], "#", "", 4, 1, 1),
        column_is(r@[1], "Title", "", 5, 2, 3),
        column_is(r@[2], "State", "", 5, 1, 2),
        column_is(r@[3], "Desc", "", 4, 3, 3),
        column_is(r@[4], "createdAt", "", 9, 1, 2),
{
    vec![
        column("#", "", 4, 1, 1),
        column("Title", "", 5, 2, 3),
        column("State", "", 5, 1, 2),
        column("Desc", "", 4, 3, 3),
        column("createdAt", "", 9, 1, 2),
    ]
}

/// The columns of the workflow state selection table.
pub open spec fn workflow_state_select_spec() -> Seq<TableColumn<'static>> {
    seq![
        TableColumn { label: "Name", null_fallback: "", min_width: 4, max_height: 2, priority: 2 },
        TableColumn { label: "Type", null_fallback: "", min_width: 4, max_height: 2, priority: 2 },
        TableColumn { label: "Desc", null_fallback: "", min_width: 4, max_height: 3, priority: 3 },
    ]
}

/// The columns of the assignee selection table.
pub open spec fn assignee_select_spec() -> Seq<TableColumn<'static>> {
    seq![
        TableColumn { label: "Name", null_fallback: "", min_width: 4, max_height: 2, priority: 2 },
        TableColumn { label: "Display Name", null_fallback: "", min_width: 12, max_height: 2, priority: 2 },
    ]
}

/// Columns of the workflow state selection table.
pub fn workflow_state_select_columns() -> (r: Vec<TableColumn<'static>>)
    ensures
        r@ == workflow_state_select_spec(),
        r@.len() == 3,
        column_is(r@[0], "Name", "", 4, 2, 2),
        column_is(r@[1], "Type", "", 4, 2, 2),
        column_is(r@[2], "Desc", "", 4, 3, 3),
{
    vec![column("Name", "", 4, 2, 2), column("Type", "", 4, 2, 2), column("Desc", "", 4, 3, 3)]
}

/// Columns of the assignee selection table.
pub fn assignee_select_columns() -> (r: Vec<TableColumn<'static>>)
    ensures
        r@ == assignee_select_spec(),
        r@.len() == 2,
        column_is(r@[0], "Name", "", 4, 2, 2),
        column_is(r@[1], "Display Name", "", 12, 2, 2),
{
    vec![column("Name", "", 4, 2, 2), column("Display Name", "", 12, 2, 2)]
}

/// The columns of the tables listing custom views.
pub open spec fn view_list_spec() -> Seq<TableColumn<'static>> {
    seq![
        TableColumn { label: "Name", null_fallback: "", min_width: 4, max_height: 2, priority: 2 },
        TableColumn { label: "Desc", null_fallback: "", min_width: 4, max_height: 3, priority: 3 },
        TableColumn { label: "Org", null_fallback: "", min_width: 3, max_height: 2, priority: 1 },
        TableColumn { label: "Team", null_fallback: "All Teams", min_width: 4, max_height: 2, priority: 1 },
    ]
}

/// Columns of the table listing the custom views placed on the dashboard.
pub fn dashboard_view_config_columns() -> (r: Vec<TableColumn<'static>>)
    ensures
        r@ == view_list_spec(),
        r@.len() == 4,
        column_is(r@[0], "Name", "", 4, 2, 2),
        column_is(r@[1], "Desc", "", 4, 3, 3),
        column_is(r@[2], "Org", "", 3, 2, 1),
        column_is(r@[3], "Team", "All Teams", 4, 2, 1),
{
    vec![
        column("Name", "", 4, 2, 2),
        column("Desc", "", 4, 3, 3),
        column("Org", "", 3, 2, 1),
        column("Team", "All Teams", 4, 2, 1),
    ]
}

/// Columns of the table listing the custom views that can be added.
pub fn custom_view_select_columns() -> (r: Vec<TableColumn<'static>>)
    ensures
        r@ == view_list_spec(),
        r@.len() == 4,
        column_is(r@[0], "Name", "", 4, 2, 2),
        column_is(r@[1], "Desc", "", 4, 3, 3),
        column_is(r@[2], "Org", "", 3, 2, 1),
        column_is(r@[3], "Team", "All Teams", 4, 2, 1),
{
    vec![
        column("Name", "", 4, 2, 2),
        column("Desc", "", 4, 3, 3),
        column("Org", "", 3, 2, 1),
        column("Team", "All Teams", 4, 2, 1),
    ]
}

} // verus!
