//! The background work that application events start: what each request
//! asks Linear for, when a request is not made, and how its reply changes
//! the state.  The requests themselves are made by the application.
use vstd::prelude::*;
use crate::app::Platform;
use crate::command::{fetch_selected_value, fetch_selected_view_panel_issue, selected_issue, AppState};
use crate::components::dashboard_view_panel::DashboardViewPanel;
use crate::components::linear_issue_op_interface::{
    candidate_count, is_candidate_at, LinearIssueOpInterface, ModificationOpData,
};
use crate::constants::IssueModificationOp;
use crate::linear::types::{Cycle, Issue, IssueRelatableObject, Project, User, WorkflowState};
use crate::util::cursor::GraphQLCursor;

verus! {

/// The page information of a reply.
pub struct PageInfo {
    pub has_next_page: bool,
    pub end_cursor: Option<String>,
}

/// The cursor that a reply leaves: Linear's, at the end of the page.
pub open spec fn cursor_after(info: PageInfo) -> GraphQLCursor {
    GraphQLCursor { platform: Platform::Linear, has_next_page: info.has_next_page, end_cursor: info.end_cursor }
}

pub(crate) fn cursor_from_page(info: PageInfo) -> (c: GraphQLCursor)
    ensures
        c == cursor_after(info),
{
    GraphQLCursor { platform: Platform::Linear, has_next_page: info.has_next_page, end_cursor: info.end_cursor }
}

/// The paging variables of a request to Linear: the page size as `first`,
/// and as `after` the end of the last page the cursor holds, if any.
pub fn page_variables(page_size: u32, cursor: &Option<GraphQLCursor>) -> (r: (u32, Option<String>))
    ensures
        r.0 == page_size,
        r.1 == match *cursor {
            Some(c) => c.end_cursor,
            None => None,
        },
{
    let after = match cursor {
        Some(c) => match &c.end_cursor {
            Some(e) => Some(e.clone()),
            None => None,
        },
        None => None,
    };
    (page_size, after)
}

/// Starts loading the custom views that can be added to the dashboard:
/// nothing is asked while a load runs; otherwise the state is marked as
/// loading and the cursor to send is handed back.
pub fn begin_custom_views_load<V>(state: &mut AppState<V>) -> (r: Option<GraphQLCursor>)
    ensures
        old(state).custom_view_loading ==> r is None && *final(state) == *old(state),
        !old(state).custom_view_loading ==> r == Some(old(state).custom_view_cursor)
            && *final(state) == (AppState { custom_view_loading: true, ..*old(state) }),
{
    if state.custom_view_loading {
        return None;
    }
    state.custom_view_loading = true;
    Some(state.custom_view_cursor.duplicate())
}

/// A page of custom views arrived: they follow the views already listed,
/// the cursor moves to the end of the page and loading ends.
pub fn receive_custom_views_page<V>(state: &mut AppState<V>, page: Vec<V>, info: PageInfo)
    ensures
        *final(state) == (AppState {
            custom_views: final(state).custom_views,
            custom_view_loading: false,
            custom_view_cursor: cursor_after(info),
            ..*old(state)
        }),
        final(state).custom_views@ == old(state).custom_views@ + page@,
{
    let mut page = page;
    state.custom_views.append(&mut page);
    state.custom_view_cursor = cursor_from_page(info);
    state.custom_view_loading = false;
}

/// A panel with its loading flag set.
pub open spec fn loading_panel<V>(p: DashboardViewPanel<V>) -> DashboardViewPanel<V> {
    DashboardViewPanel { loading: true, ..p }
}

fn copy_cursor(c: &Option<GraphQLCursor>) -> (r: Option<GraphQLCursor>)
    ensures
        r == *c,
{
    match c {
        Some(x) => Some(x.duplicate()),
        None => None,
    }
}

/// Starts loading the issues of view panel `idx`: the panel is marked as
/// loading and the cursor to send is handed back.
pub fn start_panel_load<V>(state: &mut AppState<V>, idx: usize) -> (r: Option<GraphQLCursor>)
    requires
        idx < old(state).view_panels@.len(),
    ensures
        r == old(state).view_panels@[idx as int].cursor,
        *final(state) == (AppState {
            view_panels: final(state).view_panels,
            ..*old(state)
        }),
        final(state).view_panels@ == old(state).view_panels@.update(idx as int, loading_panel(old(state).view_panels@[idx as int])),
{
    let mut panel = state.view_panels.remove(idx);
    let cursor = copy_cursor(&panel.cursor);
    panel.loading = true;
    state.view_panels.insert(idx, panel);
    assert(state.view_panels@ =~= old(state).view_panels@.update(idx as int, loading_panel(old(state).view_panels@[idx as int])));
    cursor
}

/// Starts loading the next page of the panel chosen for pagination:
/// nothing is asked while that panel loads.
pub fn begin_panel_page_load<V>(state: &mut AppState<V>) -> (r: Option<(usize, Option<GraphQLCursor>)>)
    requires
        old(state).view_panel_to_paginate < old(state).view_panels@.len(),
    ensures
        ({
            let idx = old(state).view_panel_to_paginate as int;
            if old(state).view_panels@[idx].loading {
                r is None && *final(state) == *old(state)
            } else {
                &&& r == Some((idx as usize, old(state).view_panels@[idx].cursor))
                &&& *final(state) == (AppState { view_panels: final(state).view_panels, ..*old(state) })
                &&& final(state).view_panels@ == old(state).view_panels@.update(idx, loading_panel(old(state).view_panels@[idx]))
            }
        }),
{
    let idx = state.view_panel_to_paginate;
    if state.view_panels[idx].loading {
        return None;
    }
    let cursor = start_panel_load(state, idx);
    Some((idx, cursor))
}

/// A page of issues arrived for view panel `idx`: the issues follow those of
/// the panel when `append` (a further page) or replace them (a first load),
/// the cursor moves to the end of the page and loading ends.
pub fn receive_panel_page<V>(state: &mut AppState<V>, idx: usize, page: Vec<Issue>, info: PageInfo, append: bool)
    requires
        idx < old(state).view_panels@.len(),
    ensures
        *final(state) == (AppState { view_panels: final(state).view_panels, ..*old(state) }),
        final(state).view_panels@.len() == old(state).view_panels@.len(),
        forall|q: int| 0 <= q < old(state).view_panels@.len() && q != idx ==> final(state).view_panels@[q] == old(state).view_panels@[q],
        final(state).view_panels@[idx as int].issues@ == if append {
            old(state).view_panels@[idx as int].issues@ + page@
        } else {
            page@
        },
        final(state).view_panels@[idx as int].view == old(state).view_panels@[idx as int].view,
        final(state).view_panels@[idx as int].cursor == Some(cursor_after(info)),
        !final(state).view_panels@[idx as int].loading,
{
    let mut panel = state.view_panels.remove(idx);
    let mut page = page;
    if append {
        panel.issues.append(&mut page);
    } else {
        panel.issues = page;
    }
    panel.cursor = Some(cursor_from_page(info));
    panel.loading = false;
    state.view_panels.insert(idx, panel);
}

/// What kind of objects a modification loads.
#[derive(PartialEq, Eq, Structural, Clone, Copy, Debug)]
pub enum IssueOpRequestKind {
    Cycles,
    Projects,
    TeamMembers,
    States,
}

/// The kind of objects the modification `op` chooses from, if it has a table.
pub open spec fn request_kind(op: IssueModificationOp) -> Option<IssueOpRequestKind> {
    match op {
        IssueModificationOp::ModifyCycle => Some(IssueOpRequestKind::Cycles),
        IssueModificationOp::ModifyProject => Some(IssueOpRequestKind::Projects),
        IssueModificationOp::ModifyAssignee => Some(IssueOpRequestKind::TeamMembers),
        IssueModificationOp::ModifyWorkflowState => Some(IssueOpRequestKind::States),
        _ => None,
    }
}

/// A request for the candidates of a modification: of the team of the
/// selected issue, from the modification's cursor on.
pub struct IssueOpRequest {
    pub kind: IssueOpRequestKind,
    pub team_id: String,
    pub cursor: GraphQLCursor,
}

/// Whether the candidates of the open modification are to be loaded: no
/// load runs and a modification other than a title edit is open.
pub open spec fn load_starts<V>(s: AppState<V>) -> bool {
    !s.issue_op.loading && (s.issue_op.current_op matches Some(op) && op != IssueModificationOp::ModifyTitle)
}

/// Starts loading the candidates of the open modification.  Nothing is
/// asked while a load runs, when no modification is open or when it is a
/// title edit.  Otherwise the modal is marked as loading; the request names
/// the team of the selected issue, and is not made when no issue is
/// selected or the modification loads nothing (changing the team or the
/// labels); the modal then stays marked as loading.
pub fn begin_issue_op_load<V>(state: &mut AppState<V>) -> (r: Option<IssueOpRequest>)
    requires
        old(state).view_panel_selected matches Some(p) ==> p >= 1,
    ensures
        !load_starts(*old(state)) ==> r is None && *final(state) == *old(state),
        load_starts(*old(state)) ==> *final(state) == (AppState {
            issue_op: LinearIssueOpInterface { loading: true, ..old(state).issue_op },
            ..*old(state)
        }),
        load_starts(*old(state)) && (selected_issue(*old(state)) is None
            || request_kind(old(state).issue_op.current_op->0) is None) ==> r is None,
        load_starts(*old(state)) && selected_issue(*old(state)) is Some
            && request_kind(old(state).issue_op.current_op->0) is Some ==> (r matches Some(req) && {
            let (p, i) = selected_issue(*old(state))->0;
            &&& Some(req.kind) == request_kind(old(state).issue_op.current_op->0)
            &&& req.team_id@ == old(state).view_panels@[p as int].issues@[i as int].team.id@
            &&& req.cursor == old(state).issue_op.cursor
        }),
{
    if state.issue_op.loading {
        return None;
    }
    let op = match state.issue_op.current_op {
        Some(x) => x,
        None => return None,
    };
    if op == IssueModificationOp::ModifyTitle {
        return None;
    }
    state.issue_op.loading = true;
    let (p, i) = match fetch_selected_view_panel_issue(state) {
        Some(x) => x,
        None => return None,
    };
    let team_id = state.view_panels[p].issues[i].team.id.clone();
    let kind = match op {
        IssueModificationOp::ModifyCycle => IssueOpRequestKind::Cycles,
        IssueModificationOp::ModifyProject => IssueOpRequestKind::Projects,
        IssueModificationOp::ModifyAssignee => IssueOpRequestKind::TeamMembers,
        IssueModificationOp::ModifyWorkflowState => IssueOpRequestKind::States,
        _ => return None,
    };
    let cursor = state.issue_op.cursor.duplicate();
    Some(IssueOpRequest { kind, team_id, cursor })
}

/// A page of candidates for a modification.
pub enum IssueOpPage {
    Cycles(Vec<Cycle>),
    Projects(Vec<Project>),
    TeamMembers(Vec<User>),
    States(Vec<WorkflowState>),
}

/// The candidates after a page arrived: the page follows the candidates of
/// its kind, the others stay.
pub open spec fn data_after_page(old_data: ModificationOpData, page: IssueOpPage, new_data: ModificationOpData) -> bool {
    match page {
        IssueOpPage::Cycles(v) => new_data == ModificationOpData { cycles: new_data.cycles, ..old_data }
            && new_data.cycles@ == old_data.cycles@ + v@,
        IssueOpPage::Projects(v) => new_data == ModificationOpData { projects: new_data.projects, ..old_data }
            && new_data.projects@ == old_data.projects@ + v@,
        IssueOpPage::TeamMembers(v) => new_data == ModificationOpData { users: new_data.users, ..old_data }
            && new_data.users@ == old_data.users@ + v@,
        IssueOpPage::States(v) => new_data == ModificationOpData { workflow_states: new_data.workflow_states, ..old_data }
            && new_data.workflow_states@ == old_data.workflow_states@ + v@,
    }
}

/// A page of candidates arrived: loading ends, the page follows the
/// candidates of its kind and the cursor moves to the end of the page.
pub fn receive_issue_op_page(iface: &mut LinearIssueOpInterface, page: IssueOpPage, info: PageInfo)
    ensures
        *final(iface) == (LinearIssueOpInterface {
            loading: false,
            cursor: cursor_after(info),
            obj_data: final(iface).obj_data,
            ..*old(iface)
        }),
        data_after_page(old(iface).obj_data, page, final(iface).obj_data),
{
    iface.loading = false;
    match page {
        IssueOpPage::Cycles(v) => {
            let mut v = v;
            iface.obj_data.cycles.append(&mut v);
        },
        IssueOpPage::Projects(v) => {
            let mut v = v;
            iface.obj_data.projects.append(&mut v);
        },
        IssueOpPage::TeamMembers(v) => {
            let mut v = v;
            iface.obj_data.users.append(&mut v);
        },
        IssueOpPage::States(v) => {
            let mut v = v;
            iface.obj_data.workflow_states.append(&mut v);
        },
    }
    iface.cursor = cursor_from_page(info);
}

/// A change made to an issue.
pub enum IssueChange {
    Title(String),
    State(WorkflowState),
    Assignee(User),
    Project(Project),
    Cycle(Cycle),
}

/// The change that choosing a candidate makes.
pub open spec fn change_of_candidate(o: IssueRelatableObject, c: IssueChange) -> bool {
    match o {
        IssueRelatableObject::WorkflowState(s) => c matches IssueChange::State(t) && t == s,
        IssueRelatableObject::Assignee(u) => c matches IssueChange::Assignee(t) && t == u,
        IssueRelatableObject::Project(p) => c matches IssueChange::Project(t) && t == p,
        IssueRelatableObject::Cycle(y) => c matches IssueChange::Cycle(t) && t == y,
    }
}

/// The update to send for the open modification: the id of the selected
/// issue and its new title (a title edit) or the candidate selected in the
/// modal.  There is none when no issue is selected, no modification is open,
/// or no candidate is selected.
pub fn plan_issue_update<V>(state: &AppState<V>) -> (r: Option<(String, IssueChange)>)
    requires
        state.view_panel_selected matches Some(p) ==> p >= 1,
    ensures
        r is Some <==> (selected_issue(*state) is Some && (state.issue_op.current_op matches Some(op) && (
            op == IssueModificationOp::ModifyTitle || (state.issue_op.selected_idx matches Some(i)
                && i < candidate_count(state.issue_op.current_op, state.issue_op.obj_data))))),
        r matches Some((id, change)) ==> {
            let (p, i) = selected_issue(*state)->0;
            &&& id@ == state.view_panels@[p as int].issues@[i as int].id@
            &&& if state.issue_op.current_op == Some(IssueModificationOp::ModifyTitle) {
                change matches IssueChange::Title(t) && t@ == state.title_entry.input.input@
            } else {
                exists|o: IssueRelatableObject| is_candidate_at(state.issue_op.current_op, state.issue_op.obj_data,
                    state.issue_op.selected_idx->0 as int, o) && #[trigger] change_of_candidate(o, change)
            }
        },
{
    let (p, i) = match fetch_selected_view_panel_issue(state) {
        Some(x) => x,
        None => return None,
    };
    let issue_id = state.view_panels[p].issues[i].id.clone();
    let op = match state.issue_op.current_op {
        Some(x) => x,
        None => return None,
    };
    if op == IssueModificationOp::ModifyTitle {
        return Some((issue_id, IssueChange::Title(state.title_entry.input.input.clone())));
    }
    match fetch_selected_value(state) {
        Some(obj) => {
            let ghost o = obj;
            let change = match obj {
                IssueRelatableObject::WorkflowState(s) => IssueChange::State(s),
                IssueRelatableObject::Assignee(u) => IssueChange::Assignee(u),
                IssueRelatableObject::Project(x) => IssueChange::Project(x),
                IssueRelatableObject::Cycle(y) => IssueChange::Cycle(y),
            };
            assert(change_of_candidate(o, change));
            Some((issue_id, change))
        },
        None => None,
    }
}

/// The field of Linear's issue update input that a change sets.
#[derive(PartialEq, Eq, Structural, Clone, Copy, Debug)]
pub enum UpdateField {
    Title,
    StateId,
    AssigneeId,
    ProjectId,
    CycleId,
}

/// The name of an update input field as Linear's API spells it.
pub open spec fn input_name(field: UpdateField) -> Seq<char> {
    match field {
        UpdateField::Title => "title"@,
        UpdateField::StateId => "stateId"@,
        UpdateField::AssigneeId => "assigneeId"@,
        UpdateField::ProjectId => "projectId"@,
        UpdateField::CycleId => "cycleId"@,
    }
}

impl UpdateField {
    /// The name of the field in Linear's issue update input.
    pub fn name(&self) -> (r: &'static str)
        ensures
            r@ == input_name(*self),
    {
        match self {
            UpdateField::Title => "title",
            UpdateField::StateId => "stateId",
            UpdateField::AssigneeId => "assigneeId",
            UpdateField::ProjectId => "projectId",
            UpdateField::CycleId => "cycleId",
        }
    }
}

/// The field an update sets and the value it sends: the new title, or the
/// id of the chosen object.
pub open spec fn update_input(change: IssueChange) -> (UpdateField, Seq<char>) {
    match change {
        IssueChange::Title(t) => (UpdateField::Title, t@),
        IssueChange::State(s) => (UpdateField::StateId, s.id@),
        IssueChange::Assignee(u) => (UpdateField::AssigneeId, u.id@),
        IssueChange::Project(p) => (UpdateField::ProjectId, p.id@),
        IssueChange::Cycle(c) => (UpdateField::CycleId, c.id@),
    }
}

/// The field of the update input to set for a change, and its value.
pub fn update_field(change: &IssueChange) -> (r: (UpdateField, String))
    ensures
        r.0 == update_input(*change).0,
        r.1@ == update_input(*change).1,
{
    match change {
        IssueChange::Title(t) => (UpdateField::Title, t.clone()),
        IssueChange::State(s) => (UpdateField::StateId, s.id.clone()),
        IssueChange::Assignee(u) => (UpdateField::AssigneeId, u.id.clone()),
        IssueChange::Project(p) => (UpdateField::ProjectId, p.id.clone()),
        IssueChange::Cycle(c) => (UpdateField::CycleId, c.id.clone()),
    }
}

/// `new` is `old` with `change` made: the changed field holds a copy of the
/// new value, every other field is as it was.
pub open spec fn changed_issue(old: Issue, change: IssueChange, new: Issue) -> bool {
    match change {
        IssueChange::Title(t) => new == (Issue { title: t, ..old }),
        IssueChange::State(s) => new == (Issue { state: new.state, ..old }) && cloned(s, new.state),
        IssueChange::Assignee(u) => new == (Issue { assignee: new.assignee, ..old })
            && (new.assignee matches Some(a) && cloned(u, a)),
        IssueChange::Project(p) => new == (Issue { project: new.project, ..old })
            && (new.project matches Some(x) && cloned(p, x)),
        IssueChange::Cycle(c) => new == (Issue { cycle: new.cycle, ..old }) && cloned(c, new.cycle),
    }
}

fn change_issue(issue: &mut Issue, change: &IssueChange)
    ensures
        changed_issue(*old(issue), *change, *final(issue)),
{
    match change {
        IssueChange::Title(t) => issue.title = t.clone(),
        IssueChange::State(s) => issue.state = s.clone(),
        IssueChange::Assignee(u) => issue.assignee = Some(u.clone()),
        IssueChange::Project(p) => issue.project = Some(p.clone()),
        IssueChange::Cycle(c) => issue.cycle = c.clone(),
    }
}

/// `new` is `old` with `change` made to every issue whose id is `id`.
pub open spec fn issues_after_change(old: Seq<Issue>, id: Seq<char>, change: IssueChange, new: Seq<Issue>) -> bool {
    &&& new.len() == old.len()
    &&& forall|k: int| 0 <= k < old.len() ==> if (#[trigger] old[k]).id@ == id {
        changed_issue(old[k], change, new[k])
    } else {
        new[k] == old[k]
    }
}

/// Makes `change` to every issue of the list whose id is `issue_id`.
pub fn apply_issue_change(issues: &mut Vec<Issue>, issue_id: &String, change: &IssueChange)
    ensures
        issues_after_change(old(issues)@, issue_id@, *change, final(issues)@),
{
    let ghost start = issues@;
    let mut k: usize = 0;
    while k < issues.len()
        invariant
            k <= issues@.len(),
            issues@.len() == start.len(),
            forall|j: int| 0 <= j < k ==> if (#[trigger] start[j]).id@ == issue_id@ {
                changed_issue(start[j], *change, issues@[j])
            } else {
                issues@[j] == start[j]
            },
            forall|j: int| k <= j < issues@.len() ==> issues@[j] == start[j],
        decreases issues@.len() - k,
    {
        if issues[k].id == *issue_id {
            let mut issue = issues.remove(k);
            change_issue(&mut issue, change);
            issues.insert(k, issue);
        }
        k = k + 1;
    }
}

/// The panels after an update of issue `id` succeeded: the change is made
/// to that issue in every panel, nothing else changes.
pub open spec fn panels_after_change<V>(old: Seq<DashboardViewPanel<V>>, id: Seq<char>, change: IssueChange, new: Seq<DashboardViewPanel<V>>) -> bool {
    &&& new.len() == old.len()
    &&& forall|q: int| 0 <= q < old.len() ==> {
        &&& (#[trigger] new[q]) == (DashboardViewPanel { issues: new[q].issues, ..old[q] })
        &&& issues_after_change(old[q].issues@, id, change, new[q].issues@)
    }
}

/// An update of issue `issue_id` succeeded: the change is made to that
/// issue wherever a view panel shows it.
pub fn apply_issue_change_to_panels<V>(state: &mut AppState<V>, issue_id: &String, change: &IssueChange)
    ensures
        *final(state) == (AppState { view_panels: final(state).view_panels, ..*old(state) }),
        panels_after_change(old(state).view_panels@, issue_id@, *change, final(state).view_panels@),
{
    let ghost start = state.view_panels@;
    let mut q: usize = 0;
    while q < state.view_panels.len()
        invariant
            q <= state.view_panels@.len(),
            state.view_panels@.len() == start.len(),
            *state == (AppState { view_panels: state.view_panels, ..*old(state) }),
            start == old(state).view_panels@,
            forall|j: int| 0 <= j < q ==> {
                &&& (#[trigger] state.view_panels@[j]) == (DashboardViewPanel { issues: state.view_panels@[j].issues, ..start[j] })
                &&& issues_after_change(start[j].issues@, issue_id@, *change, state.view_panels@[j].issues@)
            },
            forall|j: int| q <= j < state.view_panels@.len() ==> state.view_panels@[j] == start[j],
        decreases state.view_panels@.len() - q,
    {
        let mut panel = state.view_panels.remove(q);
        apply_issue_change(&mut panel.issues, issue_id, change);
        state.view_panels.insert(q, panel);
        q = q + 1;
    }
}

} // verus!
