//! The table of workflow states an issue can be moved to: each state's name
//! in its color, its type and its description.
use vstd::prelude::*;
use crate::components::linear_issue_display::{colored_name_cell, lines_height, lines_height_of, name_cell, plain_cell, DisplayRow};
use crate::linear::types::WorkflowState;
use crate::util::state_table::TableState;
use crate::util::table::ColoredCell;
use crate::util::text::views;

verus! {

/// The plain texts of a workflow state's row: its type and its description
/// (nothing when it has none).
pub open spec fn state_texts(s: WorkflowState) -> Seq<Seq<char>> {
    seq![
        s.state_type@,
        match s.description {
            Some(d) => d@,
            None => Seq::<char>::empty(),
        },
    ]
}

/// A workflow state's row: its name in its color, then its plain texts; as
/// tall as the plain texts need.
pub open spec fn state_display_row(s: WorkflowState, row: DisplayRow) -> bool {
    let t = state_texts(s);
    &&& row.cells@.len() == 3
    &&& name_cell(s.name@, s.color@, row.cells@[0])
    &&& plain_cell(t[0], row.cells@[1])
    &&& plain_cell(t[1], row.cells@[2])
    &&& row.height == lines_height(t)
}

/// The workflow states to choose from, with the selection.
pub struct LinearWorkflowStateDisplayState {
    pub workflow_states_data: Option<Vec<WorkflowState>>,
    pub workflow_states_state: TableState,
}

impl Default for LinearWorkflowStateDisplayState {
    fn default() -> (r: LinearWorkflowStateDisplayState)
        ensures
            r.workflow_states_data matches Some(v) && v@.len() == 0,
            r.workflow_states_state.selected is None,
    {
        LinearWorkflowStateDisplayState {
            workflow_states_data: Some(Vec::new()),
            workflow_states_state: TableState::default(),
        }
    }
}

fn state_display_row_of(s: &WorkflowState) -> (r: DisplayRow)
    ensures
        state_display_row(*s, r),
{
    let description = match &s.description {
        Some(d) => d.clone(),
        None => String::new(),
    };
    let texts: Vec<String> = vec![s.state_type.clone(), description];
    assert(views(texts@) =~= state_texts(*s));
    let height = lines_height_of(&texts);
    let cells: Vec<ColoredCell> = vec![
        colored_name_cell(&s.name, &s.color),
        ColoredCell { text: texts[0].clone(), fg: None },
        ColoredCell { text: texts[1].clone(), fg: None },
    ];
    DisplayRow { cells, height }
}

impl LinearWorkflowStateDisplayState {
    /// One row per workflow state (see `state_display_row`); an error when
    /// no states were loaded.
    pub fn get_rendered_workflow_state_select(table_data: &Option<Vec<WorkflowState>>) -> (r: Result<Vec<DisplayRow>, &'static str>)
        ensures
            r is Err <==> table_data is None,
            r matches Err(m) ==> m@ == "Table Items is None"@,
            r matches Ok(rows) ==> table_data matches Some(states) && rows@.len() == states@.len()
                && forall|k: int| 0 <= k < rows@.len() ==> state_display_row(states@[k], #[trigger] rows@[k]),
    {
        let states = match table_data {
            Some(x) => x,
            None => {
                return Err("Table Items is None");
            },
        };
        let mut rows: Vec<DisplayRow> = Vec::new();
        let mut k: usize = 0;
        while k < states.len()
            invariant
                k <= states@.len(),
                rows@.len() == k,
                forall|j: int| 0 <= j < k ==> state_display_row(states@[j], #[trigger] rows@[j]),
            decreases states@.len() - k,
        {
            rows.push(state_display_row_of(&states[k]));
            k = k + 1;
        }
        Ok(rows)
    }
}

} // verus!
