//! The modal in which an issue's workflow state, assignee, project or cycle
//! is chosen, or its title edited.
use vstd::prelude::*;
use crate::app::Platform;
use crate::constants::IssueModificationOp;
use crate::linear::types::{Cycle, IssueRelatableObject, Project, User, WorkflowState};
use crate::constants::table_columns::{
    assignee_select_columns, assignee_select_spec, workflow_state_select_columns, workflow_state_select_spec,
    TableColumn,
};
use crate::util::cursor::GraphQLCursor;
use crate::util::layout::{try_widths_from_rect, widths_fit, widths_spec, wrap_format};
use crate::util::table::{
    cell_text, cells_formattable, colored_cell, get_row_height, max_capped_lines, row_height,
    row_min_render_height, try_format_cell_fields, ColoredCell,
};
use crate::util::ui::color_of_hex;
use crate::util::state_table::TableState;
use crate::util::text::{concat_all, graphemes_of, lemma_concat_nonempty, views};

verus! {

/// The columns of the selection table of a workflow state or assignee
/// modification.
pub open spec fn op_columns(op: IssueModificationOp) -> Seq<TableColumn<'static>> {
    if op == IssueModificationOp::ModifyWorkflowState {
        workflow_state_select_spec()
    } else {
        assignee_select_spec()
    }
}

/// The candidates loaded for each kind of modification.
pub struct ModificationOpData {
    pub cycles: Vec<Cycle>,
    pub projects: Vec<Project>,
    pub users: Vec<User>,
    pub workflow_states: Vec<WorkflowState>,
}

impl Default for ModificationOpData {
    fn default() -> (r: ModificationOpData)
        ensures
            r.cycles@.len() == 0,
            r.projects@.len() == 0,
            r.users@.len() == 0,
            r.workflow_states@.len() == 0,
    {
        ModificationOpData {
            cycles: Vec::new(),
            projects: Vec::new(),
            users: Vec::new(),
            workflow_states: Vec::new(),
        }
    }
}

pub struct LinearIssueOpInterface {
    pub current_op: Option<IssueModificationOp>,
    pub selected_idx: Option<usize>,
    pub data_state: TableState,
    pub loading: bool,
    pub cursor: GraphQLCursor,
    pub obj_data: ModificationOpData,
}

/// `v` lists copies of `states`, in order, as workflow state objects.
pub open spec fn lists_states(v: Seq<IssueRelatableObject>, states: Seq<WorkflowState>) -> bool {
    v.len() == states.len() && forall|i: int| 0 <= i < v.len() ==> (#[trigger] v[i] matches IssueRelatableObject::WorkflowState(s) && cloned(states[i], s))
}

/// `v` lists copies of `users`, in order, as assignee objects.
pub open spec fn lists_users(v: Seq<IssueRelatableObject>, users: Seq<User>) -> bool {
    v.len() == users.len() && forall|i: int| 0 <= i < v.len() ==> (#[trigger] v[i] matches IssueRelatableObject::Assignee(u) && cloned(users[i], u))
}

/// `v` lists copies of `projects`, in order, as project objects.
pub open spec fn lists_projects(v: Seq<IssueRelatableObject>, projects: Seq<Project>) -> bool {
    v.len() == projects.len() && forall|i: int| 0 <= i < v.len() ==> (#[trigger] v[i] matches IssueRelatableObject::Project(p) && cloned(projects[i], p))
}

/// `v` lists copies of `cycles`, in order, as cycle objects.
pub open spec fn lists_cycles(v: Seq<IssueRelatableObject>, cycles: Seq<Cycle>) -> bool {
    v.len() == cycles.len() && forall|i: int| 0 <= i < v.len() ==> (#[trigger] v[i] matches IssueRelatableObject::Cycle(c) && cloned(cycles[i], c))
}

/// The table shown for the current modification: the candidates of its
/// kind, or nothing for a title edit and for the kinds without a table.
pub open spec fn shows_op_data(op: Option<IssueModificationOp>, data: ModificationOpData, r: Option<Vec<IssueRelatableObject>>) -> bool {
    match op {
        Some(IssueModificationOp::ModifyWorkflowState) => r matches Some(v) && lists_states(v@, data.workflow_states@),
        Some(IssueModificationOp::ModifyAssignee) => r matches Some(v) && lists_users(v@, data.users@),
        Some(IssueModificationOp::ModifyProject) => r matches Some(v) && lists_projects(v@, data.projects@),
        Some(IssueModificationOp::ModifyCycle) => r matches Some(v) && lists_cycles(v@, data.cycles@),
        _ => r is None,
    }
}

/// The object at position `i` of the candidates of the modification `op`,
/// as `o` holds a copy of it.
pub open spec fn is_candidate_at(op: Option<IssueModificationOp>, data: ModificationOpData, i: int, o: IssueRelatableObject) -> bool {
    match op {
        Some(IssueModificationOp::ModifyWorkflowState) => 0 <= i < data.workflow_states@.len()
            && (o matches IssueRelatableObject::WorkflowState(s) && cloned(data.workflow_states@[i], s)),
        Some(IssueModificationOp::ModifyAssignee) => 0 <= i < data.users@.len()
            && (o matches IssueRelatableObject::Assignee(u) && cloned(data.users@[i], u)),
        Some(IssueModificationOp::ModifyProject) => 0 <= i < data.projects@.len()
            && (o matches IssueRelatableObject::Project(p) && cloned(data.projects@[i], p)),
        Some(IssueModificationOp::ModifyCycle) => 0 <= i < data.cycles@.len()
            && (o matches IssueRelatableObject::Cycle(c) && cloned(data.cycles@[i], c)),
        _ => false,
    }
}

/// The number of candidates of the modification `op` (none for a title
/// edit or when no modification is open).
pub open spec fn candidate_count(op: Option<IssueModificationOp>, data: ModificationOpData) -> int {
    match op {
        Some(IssueModificationOp::ModifyWorkflowState) => data.workflow_states@.len() as int,
        Some(IssueModificationOp::ModifyAssignee) => data.users@.len() as int,
        Some(IssueModificationOp::ModifyProject) => data.projects@.len() as int,
        Some(IssueModificationOp::ModifyCycle) => data.cycles@.len() as int,
        _ => 0,
    }
}

/// The modifications that can be undone by `reset_op`.
pub open spec fn resettable(op: Option<IssueModificationOp>) -> bool {
    match op {
        Some(IssueModificationOp::ModifyTitle) => true,
        Some(IssueModificationOp::ModifyWorkflowState) => true,
        Some(IssueModificationOp::ModifyAssignee) => true,
        Some(IssueModificationOp::ModifyProject) => true,
        Some(IssueModificationOp::ModifyCycle) => true,
        _ => false,
    }
}

/// The modifications chosen from a table.
pub open spec fn table_op(op: IssueModificationOp) -> bool {
    op == IssueModificationOp::ModifyWorkflowState || op == IssueModificationOp::ModifyAssignee
        || op == IssueModificationOp::ModifyProject || op == IssueModificationOp::ModifyCycle
}

/// A modification is ready to be sent: a title edit with a non-empty title,
/// or a table modification with a row selected.
pub open spec fn valid_selection(op: Option<IssueModificationOp>, selected: Option<usize>, title: Seq<char>) -> bool {
    match op {
        Some(IssueModificationOp::ModifyTitle) => title.len() > 0,
        Some(o) => table_op(o) && selected is Some,
        None => false,
    }
}

/// `new` is `old` once its modification is closed: nothing selected, the
/// candidates of the closed modification dropped, the cursor starting over.
pub open spec fn reset_post(old: LinearIssueOpInterface, new: LinearIssueOpInterface) -> bool {
    &&& new.current_op is None
    &&& new.selected_idx is None
    &&& new.data_state.selected is None
    &&& new.loading == old.loading
    &&& new.cursor.platform == Platform::Linear
    &&& !new.cursor.has_next_page
    &&& new.cursor.end_cursor is None
    &&& new.obj_data.workflow_states@ == if old.current_op == Some(IssueModificationOp::ModifyWorkflowState) {
        Seq::<WorkflowState>::empty()
    } else {
        old.obj_data.workflow_states@
    }
    &&& new.obj_data.users@ == if old.current_op == Some(IssueModificationOp::ModifyAssignee) {
        Seq::<User>::empty()
    } else {
        old.obj_data.users@
    }
    &&& new.obj_data.projects@ == if old.current_op == Some(IssueModificationOp::ModifyProject) {
        Seq::<Project>::empty()
    } else {
        old.obj_data.projects@
    }
    &&& new.obj_data.cycles@ == if old.current_op == Some(IssueModificationOp::ModifyCycle) {
        Seq::<Cycle>::empty()
    } else {
        old.obj_data.cycles@
    }
}

impl LinearIssueOpInterface {
    pub fn table_data_from_op(&self) -> (r: Option<Vec<IssueRelatableObject>>)
        ensures
            shows_op_data(self.current_op, self.obj_data, r),
    {
        match self.current_op {
            Some(IssueModificationOp::ModifyWorkflowState) => {
                let src = &self.obj_data.workflow_states;
                let mut v: Vec<IssueRelatableObject> = Vec::new();
                let mut i: usize = 0;
                while i < src.len()
                    invariant
                        i <= src@.len(),
                        v@.len() == i,
                        forall|j: int| 0 <= j < i ==> (#[trigger] v@[j] matches IssueRelatableObject::WorkflowState(s) && cloned(src@[j], s)),
                    decreases src@.len() - i,
                {
                    let s = src[i].clone();
                    v.push(IssueRelatableObject::WorkflowState(s));
                    i = i + 1;
                }
                Some(v)
            },
            Some(IssueModificationOp::ModifyAssignee) => {
                let src = &self.obj_data.users;
                let mut v: Vec<IssueRelatableObject> = Vec::new();
                let mut i: usize = 0;
                while i < src.len()
                    invariant
                        i <= src@.len(),
                        v@.len() == i,
                        forall|j: int| 0 <= j < i ==> (#[trigger] v@[j] matches IssueRelatableObject::Assignee(u) && cloned(src@[j], u)),
                    decreases src@.len() - i,
                {
                    let u = src[i].clone();
                    v.push(IssueRelatableObject::Assignee(u));
                    i = i + 1;
                }
                Some(v)
            },
            Some(IssueModificationOp::ModifyProject) => {
                let src = &self.obj_data.projects;
                let mut v: Vec<IssueRelatableObject> = Vec::new();
                let mut i: usize = 0;
                while i < src.len()
                    invariant
                        i <= src@.len(),
                        v@.len() == i,
                        forall|j: int| 0 <= j < i ==> (#[trigger] v@[j] matches IssueRelatableObject::Project(p) && cloned(src@[j], p)),
                    decreases src@.len() - i,
                {
                    let p = src[i].clone();
                    v.push(IssueRelatableObject::Project(p));
                    i = i + 1;
                }
                Some(v)
            },
            Some(IssueModificationOp::ModifyCycle) => {
                let src = &self.obj_data.cycles;
                let mut v: Vec<IssueRelatableObject> = Vec::new();
                let mut i: usize = 0;
                while i < src.len()
                    invariant
                        i <= src@.len(),
                        v@.len() == i,
                        forall|j: int| 0 <= j < i ==> (#[trigger] v@[j] matches IssueRelatableObject::Cycle(c) && cloned(src@[j], c)),
                    decreases src@.len() - i,
                {
                    let c = src[i].clone();
                    v.push(IssueRelatableObject::Cycle(c));
                    i = i + 1;
                }
                Some(v)
            },
            _ => None,
        }
    }

    /// The candidate selected in the table of the current modification:
    /// `None` when no row is selected or the selection lies past the
    /// candidates.
    pub fn selected_value(&self) -> (r: Option<IssueRelatableObject>)
        ensures
            r is Some <==> (self.selected_idx matches Some(i) && i < candidate_count(self.current_op, self.obj_data)),
            r matches Some(o) ==> is_candidate_at(self.current_op, self.obj_data, self.selected_idx->0 as int, o),
    {
        let mut v = match self.table_data_from_op() {
            Some(v) => v,
            None => return None,
        };
        let i = match self.selected_idx {
            Some(x) => x,
            None => return None,
        };
        if i < v.len() {
            Some(v.remove(i))
        } else {
            None
        }
    }

    /// Whether the current modification can be sent.
    pub fn is_valid_selection_for_update(&self, title_input: &str) -> (r: bool)
        ensures
            r == valid_selection(self.current_op, self.selected_idx, title_input@),
    {
        match self.current_op {
            Some(IssueModificationOp::ModifyTitle) => {
                let gs = graphemes_of(title_input);
                proof {
                    let parts = views(gs@);
                    assert forall|j: int| 0 <= j < parts.len() implies #[trigger] parts[j].len() > 0 by {
                        assert(parts[j] == gs@[j]@);
                    }
                    lemma_concat_nonempty(parts);
                }
                gs.len() > 0
            },
            Some(IssueModificationOp::ModifyWorkflowState) => self.selected_idx.is_some(),
            Some(IssueModificationOp::ModifyAssignee) => self.selected_idx.is_some(),
            Some(IssueModificationOp::ModifyProject) => self.selected_idx.is_some(),
            Some(IssueModificationOp::ModifyCycle) => self.selected_idx.is_some(),
            _ => false,
        }
    }

    /// Closes the modification: the candidates loaded for it are dropped,
    /// nothing is selected, and the cursor starts over.
    pub fn reset_op(&mut self)
        requires
            resettable(old(self).current_op),
        ensures
            reset_post(*old(self), *final(self)),
    {
        match self.current_op {
            Some(IssueModificationOp::ModifyWorkflowState) => {
                self.obj_data.workflow_states = Vec::new();
            },
            Some(IssueModificationOp::ModifyAssignee) => {
                self.obj_data.users = Vec::new();
            },
            Some(IssueModificationOp::ModifyProject) => {
                self.obj_data.projects = Vec::new();
            },
            Some(IssueModificationOp::ModifyCycle) => {
                self.obj_data.cycles = Vec::new();
            },
            _ => {},
        }
        self.selected_idx = None;
        self.current_op = None;
        self.data_state = TableState::default();
        self.cursor = GraphQLCursor::with_platform(Platform::Linear);
    }

    /// The column widths of the selection table of a workflow state or
    /// assignee modification, for a box `bbox_width` units wide; `None` where
    /// sizing those columns to that width would overflow.
    pub fn widths_from_rect_op(bbox_width: u16, op: &IssueModificationOp) -> (r: Option<Vec<u16>>)
        requires
            *op == IssueModificationOp::ModifyWorkflowState || *op == IssueModificationOp::ModifyAssignee,
        ensures
            r is Some <==> widths_fit(bbox_width as int, op_columns(*op)),
            r matches Some(v) ==> v@.len() == op_columns(*op).len() && forall|j: int| 0 <= j < v@.len()
                ==> v@[j] as int == #[trigger] widths_spec(bbox_width as int, op_columns(*op))[j],
    {
        let columns = match op {
            IssueModificationOp::ModifyWorkflowState => workflow_state_select_columns(),
            _ => assignee_select_columns(),
        };
        try_widths_from_rect(bbox_width, columns.as_slice())
    }

    /// The title of the table of a modification.
    pub fn title_from_op(op: &IssueModificationOp) -> (r: String)
        requires
            table_op(*op),
        ensures
            *op == IssueModificationOp::ModifyWorkflowState ==> r@ == "Select New Workflow State"@,
            *op == IssueModificationOp::ModifyAssignee ==> r@ == "Select New Assignee"@,
            *op == IssueModificationOp::ModifyProject ==> r@ == "Select New Project"@,
            *op == IssueModificationOp::ModifyCycle ==> r@ == "Select New Cycle"@,
    {
        match op {
            IssueModificationOp::ModifyWorkflowState => String::from_str("Select New Workflow State"),
            IssueModificationOp::ModifyAssignee => String::from_str("Select New Assignee"),
            IssueModificationOp::ModifyProject => String::from_str("Select New Project"),
            _ => String::from_str("Select New Cycle"),
        }
    }
}

/// The texts of a workflow state's row: name, type, description.
pub open spec fn state_values(s: WorkflowState) -> Seq<Seq<char>> {
    seq![s.name@, s.state_type@, match s.description {
        Some(d) => d@,
        None => Seq::<char>::empty(),
    }]
}

/// The texts of a team member's row: name, display name.
pub open spec fn user_values(u: User) -> Seq<Seq<char>> {
    seq![
        match u.name {
            Some(n) => n@,
            None => Seq::<char>::empty(),
        },
        match u.display_name {
            Some(n) => n@,
            None => Seq::<char>::empty(),
        },
    ]
}

/// The cell texts of row `k` of the table of a workflow state or assignee
/// modification, empty ones replaced by their column's fallback.
pub open spec fn candidate_fields(op: IssueModificationOp, data: ModificationOpData, k: int) -> Seq<Seq<char>> {
    let values = if op == IssueModificationOp::ModifyWorkflowState {
        state_values(data.workflow_states@[k])
    } else {
        user_values(data.users@[k])
    };
    Seq::new(values.len(), |c: int| cell_text(values[c], op_columns(op)[c]))
}

/// The height a candidate's row is wrapped to: what its cells need, each
/// capped at its column's height.
pub open spec fn own_height(fields: Seq<Seq<char>>, widths: Seq<u16>, cols: Seq<TableColumn>) -> u16 {
    max_capped_lines(fields, widths, cols, fields.len() as int) as u16
}

/// The wrapped text of cell `c` of a row wrapped to its own height.
pub open spec fn own_cell_text(fields: Seq<Seq<char>>, widths: Seq<u16>, cols: Seq<TableColumn>, c: int) -> Seq<char> {
    wrap_format(fields[c], widths[c], own_height(fields, widths, cols))
}

/// The wrapped texts of row `k` of a modification's table.
pub open spec fn candidate_texts(op: IssueModificationOp, data: ModificationOpData, widths: Seq<u16>, k: int) -> Seq<Seq<char>> {
    let f = candidate_fields(op, data, k);
    Seq::new(f.len(), |c: int| own_cell_text(f, widths, op_columns(op), c))
}

/// The number of rows of a modification's table.
pub open spec fn candidate_rows(op: IssueModificationOp, data: ModificationOpData) -> int {
    if op == IssueModificationOp::ModifyWorkflowState {
        data.workflow_states@.len() as int
    } else {
        data.users@.len() as int
    }
}

/// The height every row of a modification's table gets: the most line
/// breaks in a wrapped cell of its first `n` rows.
pub open spec fn candidate_table_height(op: IssueModificationOp, data: ModificationOpData, widths: Seq<u16>, n: int) -> nat
    decreases n,
{
    if n <= 0 {
        0
    } else {
        let prev = candidate_table_height(op, data, widths, n - 1);
        let here = row_height(candidate_texts(op, data, widths, n - 1));
        if here > prev { here } else { prev }
    }
}

/// Every row of a modification's table can be wrapped to its own height.
pub open spec fn candidates_formattable(op: IssueModificationOp, data: ModificationOpData, widths: Seq<u16>) -> bool {
    forall|k: int| 0 <= k < candidate_rows(op, data) ==> {
        let f = #[trigger] candidate_fields(op, data, k);
        cells_formattable(f, widths, op_columns(op), Some(own_height(f, widths, op_columns(op))))
    }
}

/// The rows of a modification's table and the height they all get.
pub struct CandidateTable {
    pub rows: Vec<Vec<ColoredCell>>,
    pub row_height: usize,
}

fn own_height_row(fields: &Vec<String>, widths: &Vec<u16>, cols: &Vec<TableColumn>) -> (r: Option<Vec<String>>)
    requires
        fields@.len() <= widths@.len(),
        fields@.len() <= cols@.len(),
    ensures
        r is Some <==> cells_formattable(views(fields@), widths@, cols@, Some(own_height(views(fields@), widths@, cols@))),
        r matches Some(v) ==> v@.len() == fields@.len() && forall|c: int| 0 <= c < v@.len()
            ==> (#[trigger] v@[c])@ == own_cell_text(views(fields@), widths@, cols@, c),
{
    let h = row_min_render_height(fields.as_slice(), widths.as_slice(), cols.as_slice());
    try_format_cell_fields(fields.as_slice(), widths.as_slice(), cols.as_slice(), Some(h))
}

fn values_row(values: Vec<String>, cols: &Vec<TableColumn>) -> (r: Vec<String>)
    requires
        values@.len() <= cols@.len(),
    ensures
        views(r@) == Seq::new(values@.len(), |c: int| cell_text(views(values@)[c], cols@[c])),
{
    let mut r: Vec<String> = Vec::new();
    let mut c: usize = 0;
    while c < values.len()
        invariant
            values@.len() <= cols@.len(),
            c <= values@.len(),
            r@.len() == c,
            forall|k: int| 0 <= k < c ==> (#[trigger] r@[k])@ == cell_text(values@[k]@, cols@[k]),
        decreases values@.len() - c,
    {
        let text = if values[c].as_str().unicode_len() == 0 {
            String::from_str(cols[c].null_fallback)
        } else {
            values[c].clone()
        };
        r.push(text);
        c = c + 1;
    }
    assert(views(r@) =~= Seq::new(values@.len(), |c: int| cell_text(views(values@)[c], cols@[c])));
    r
}

fn opt_text(s: &Option<String>) -> (r: String)
    ensures
        r@ == match *s {
            Some(t) => t@,
            None => Seq::<char>::empty(),
        },
{
    match s {
        Some(t) => t.clone(),
        None => String::new(),
    }
}

impl LinearIssueOpInterface {
    /// The table of a workflow state or assignee modification: each
    /// candidate's cells wrapped to the column widths and to the height its
    /// own cells need, a workflow state's name drawn in its color, and every
    /// row as tall as the most line breaks any row holds.  `None` where a
    /// cell cannot be wrapped.
    pub fn candidate_table(op: IssueModificationOp, data: &ModificationOpData, widths: &Vec<u16>) -> (r: Option<CandidateTable>)
        requires
            op == IssueModificationOp::ModifyWorkflowState || op == IssueModificationOp::ModifyAssignee,
            widths@.len() >= op_columns(op).len(),
        ensures
            r is Some <==> candidates_formattable(op, *data, widths@),
            r matches Some(t) ==> {
                &&& t.row_height == candidate_table_height(op, *data, widths@, candidate_rows(op, *data))
                &&& t.rows@.len() == candidate_rows(op, *data)
                &&& forall|k: int| 0 <= k < t.rows@.len() ==> {
                    &&& (#[trigger] t.rows@[k])@.len() == op_columns(op).len()
                    &&& forall|c: int| 0 <= c < op_columns(op).len() ==> {
                        &&& (#[trigger] t.rows@[k]@[c]).text@ == candidate_texts(op, *data, widths@, k)[c]
                        &&& t.rows@[k]@[c].fg == if c == 0 && op == IssueModificationOp::ModifyWorkflowState {
                            color_of_hex(data.workflow_states@[k].color@)
                        } else {
                            None
                        }
                    }
                }
            },
    {
        let cols = if op == IssueModificationOp::ModifyWorkflowState {
            workflow_state_select_columns()
        } else {
            assignee_select_columns()
        };
        let n: usize = if op == IssueModificationOp::ModifyWorkflowState { data.workflow_states.len() } else { data.users.len() };
        let mut rows: Vec<Vec<ColoredCell>> = Vec::new();
        let mut height: usize = 0;
        let mut k: usize = 0;
        while k < n
            invariant
                op == IssueModificationOp::ModifyWorkflowState || op == IssueModificationOp::ModifyAssignee,
                cols@ == op_columns(op),
                widths@.len() >= op_columns(op).len(),
                n == candidate_rows(op, *data),
                k <= n,
                rows@.len() == k,
                height == candidate_table_height(op, *data, widths@, k as int),
                forall|j: int| 0 <= j < k ==> {
                    let f = #[trigger] candidate_fields(op, *data, j);
                    cells_formattable(f, widths@, op_columns(op), Some(own_height(f, widths@, op_columns(op))))
                },
                forall|j: int| 0 <= j < k ==> {
                    &&& (#[trigger] rows@[j])@.len() == op_columns(op).len()
                    &&& forall|c: int| 0 <= c < op_columns(op).len() ==> {
                        &&& (#[trigger] rows@[j]@[c]).text@ == candidate_texts(op, *data, widths@, j)[c]
                        &&& rows@[j]@[c].fg == if c == 0 && op == IssueModificationOp::ModifyWorkflowState {
                            color_of_hex(data.workflow_states@[j].color@)
                        } else {
                            None
                        }
                    }
                },
            decreases n - k,
        {
            let values: Vec<String> = if op == IssueModificationOp::ModifyWorkflowState {
                let st = &data.workflow_states[k];
                vec![st.name.clone(), st.state_type.clone(), opt_text(&st.description)]
            } else {
                let u = &data.users[k];
                vec![opt_text(&u.name), opt_text(&u.display_name)]
            };
            proof {
                let vs = if op == IssueModificationOp::ModifyWorkflowState {
                    state_values(data.workflow_states@[k as int])
                } else {
                    user_values(data.users@[k as int])
                };
                assert(views(values@) =~= vs);
            }
            let fields = values_row(values, &cols);
            assert(views(fields@) =~= candidate_fields(op, *data, k as int));
            let formatted = match own_height_row(&fields, widths, &cols) {
                Some(v) => v,
                None => return None,
            };
            let mut row: Vec<ColoredCell> = Vec::new();
            let mut c: usize = 0;
            while c < formatted.len()
                invariant
                    op == IssueModificationOp::ModifyWorkflowState || op == IssueModificationOp::ModifyAssignee,
                    formatted@.len() == op_columns(op).len(),
                    views(fields@) == candidate_fields(op, *data, k as int),
                    cols@ == op_columns(op),
                    k < n,
                    n == candidate_rows(op, *data),
                    forall|i: int| 0 <= i < formatted@.len() ==> (#[trigger] formatted@[i])@ == own_cell_text(views(fields@), widths@, cols@, i),
                    c <= formatted@.len(),
                    row@.len() == c,
                    forall|i: int| 0 <= i < c ==> {
                        &&& (#[trigger] row@[i]).text@ == candidate_texts(op, *data, widths@, k as int)[i]
                        &&& row@[i].fg == if i == 0 && op == IssueModificationOp::ModifyWorkflowState {
                            color_of_hex(data.workflow_states@[k as int].color@)
                        } else {
                            None
                        }
                    },
                decreases formatted@.len() - c,
            {
                let text = formatted[c].clone();
                let cell = if c == 0 && op == IssueModificationOp::ModifyWorkflowState {
                    colored_cell(text, data.workflow_states[k].color.as_str())
                } else {
                    ColoredCell { text, fg: None }
                };
                row.push(cell);
                c = c + 1;
            }
            let here = get_row_height(formatted.as_slice());
            assert(views(formatted@) =~= candidate_texts(op, *data, widths@, k as int));
            if here > height {
                height = here;
            }
            rows.push(row);
            k = k + 1;
        }
        Some(CandidateTable { rows, row_height: height })
    }
}

impl Default for LinearIssueOpInterface {
    fn default() -> (r: LinearIssueOpInterface)
        ensures
            r.current_op is None,
            r.selected_idx is None,
            r.data_state.selected is None,
            !r.loading,
            r.cursor.platform == Platform::Linear,
            !r.cursor.has_next_page,
            r.cursor.end_cursor is None,
            r.obj_data.cycles@.len() == 0,
            r.obj_data.projects@.len() == 0,
            r.obj_data.users@.len() == 0,
            r.obj_data.workflow_states@.len() == 0,
    {
        LinearIssueOpInterface {
            current_op: None,
            selected_idx: None,
            data_state: TableState::default(),
            loading: false,
            cursor: GraphQLCursor::with_platform(Platform::Linear),
            obj_data: ModificationOpData::default(),
        }
    }
}

} // verus!
