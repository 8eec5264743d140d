//! Keyboard commands: decoding key presses, and what each command does to
//! the navigation state of the application.
use vstd::prelude::*;
use crate::app::{AppEvent, InputMode, Platform, Route};
use crate::components::linear_issue_op_interface::{
    candidate_count, is_candidate_at,
    reset_post, resettable, valid_selection, LinearIssueOpInterface, ModificationOpData,
};
use crate::components::dashboard_view_panel::DashboardViewPanel;
use crate::dashboard::{panel_ids_of, panels_without_view, position_of_view};
use crate::linear::types::CustomView;
use crate::components::title_entry::TitleValidationState;
use crate::components::token_entry::TokenValidationState;
use crate::components::user_input::{
    back_result, delete_allowed, delete_result, forward_result, insert_allowed, insert_result, set_input_result, UserInput,
};
use crate::linear::config::{is_token_len_valid, token_len_ok};
use crate::components::title_entry::TitleEntry;
use crate::components::token_entry::TokenEntry;
use crate::linear::types::{Issue, IssueRelatableObject};
use crate::constants::IssueModificationOp;
use crate::util::cursor::{exhausted, GraphQLCursor};
use crate::util::state_list::{self, ListState};
use crate::util::state_table::{self, is_last, next_index, previous_index, TableState};

verus! {

/// A key press, as the terminal reports it.
#[derive(PartialEq, Eq, Structural, Clone, Copy, Debug)]
pub enum Key {
    Left,
    Right,
    Up,
    Down,
    Enter,
    Esc,
    Backspace,
    Char(char),
    Other,
}

#[derive(PartialEq, Eq, Structural, Clone, Copy, Debug)]
pub enum Command {
    MoveBack,
    ScrollDown,
    ScrollUp,
    Confirm,
    EditorEnter,
    EditorInput(char),
    EditorMoveBackward,
    EditorMoveForward,
    EditorDelete,
    EditorSubmit,
    EditorExit,
    Quit,
    Delete,
    SelectViewPanel(usize),
    RefreshViewPanel,
    ExpandIssue,
    SelectDashboardViewList,
    SelectCustomViewSelect,
    OpenIssueOpInterface(IssueModificationOp),
}

/// The command of a key press while text is being edited.
pub open spec fn editor_command(input: Key) -> Option<Command> {
    match input {
        Key::Esc => Some(Command::EditorExit),
        Key::Char(c) => if c == '\n' { Some(Command::EditorSubmit) } else { Some(Command::EditorInput(c)) },
        Key::Enter => Some(Command::EditorSubmit),
        Key::Right => Some(Command::EditorMoveForward),
        Key::Left => Some(Command::EditorMoveBackward),
        Key::Backspace => Some(Command::EditorDelete),
        _ => None,
    }
}

/// The command named by the typed command text on the given screen: single
/// letters name commands, digits select view panels (on the dashboard view
/// list screen, 1 and 2 select its two tables instead).
pub open spec fn text_command(cmd: Seq<char>, route: Route) -> Option<Command> {
    if cmd.len() != 1 {
        None
    } else {
        let c = cmd[0];
        if c == 'q' { Some(Command::Quit) }
        else if c == 'e' { Some(Command::EditorEnter) }
        else if c == 'd' { Some(Command::Delete) }
        else if c == 'r' { Some(Command::RefreshViewPanel) }
        else if c == 'f' { Some(Command::ExpandIssue) }
        else if c == 't' { Some(Command::OpenIssueOpInterface(IssueModificationOp::ModifyTitle)) }
        else if c == 'w' { Some(Command::OpenIssueOpInterface(IssueModificationOp::ModifyWorkflowState)) }
        else if c == 'a' { Some(Command::OpenIssueOpInterface(IssueModificationOp::ModifyAssignee)) }
        else if c == 'p' { Some(Command::OpenIssueOpInterface(IssueModificationOp::ModifyProject)) }
        else if c == 'c' { Some(Command::OpenIssueOpInterface(IssueModificationOp::ModifyCycle)) }
        else if c == '1' {
            if route == Route::DashboardViewDisplay { Some(Command::SelectDashboardViewList) } else { Some(Command::SelectViewPanel(1)) }
        } else if c == '2' {
            if route == Route::DashboardViewDisplay { Some(Command::SelectCustomViewSelect) } else { Some(Command::SelectViewPanel(2)) }
        }
        else if c == '3' { Some(Command::SelectViewPanel(3)) }
        else if c == '4' { Some(Command::SelectViewPanel(4)) }
        else if c == '5' { Some(Command::SelectViewPanel(5)) }
        else if c == '6' { Some(Command::SelectViewPanel(6)) }
        else { None }
    }
}

/// The command of a key press outside of text editing, given the command
/// text once the key's character was added to it.
pub open spec fn normal_command(input: Key, cmd: Seq<char>, route: Route) -> Option<Command> {
    match input {
        Key::Left => Some(Command::MoveBack),
        Key::Down => Some(Command::ScrollDown),
        Key::Up => Some(Command::ScrollUp),
        Key::Right => Some(Command::Confirm),
        Key::Char(_) => text_command(cmd, route),
        Key::Esc => Some(Command::EditorExit),
        _ => None,
    }
}

/// Decodes a key press.  Outside of text editing a character key is added
/// to the command text `cmd_str` first, and the whole text names the
/// command.
pub fn get_cmd(cmd_str: &mut String, input: Key, current_route: &Route, input_mode: &InputMode) -> (r: Option<Command>)
    ensures
        *input_mode == InputMode::Edit ==> r == editor_command(input) && final(cmd_str)@ == old(cmd_str)@,
        *input_mode == InputMode::Normal ==> (match input {
            Key::Char(c) => final(cmd_str)@ == old(cmd_str)@.push(c),
            _ => final(cmd_str)@ == old(cmd_str)@,
        }) && r == normal_command(input, final(cmd_str)@, *current_route),
{
    if *input_mode == InputMode::Edit {
        return match input {
            Key::Esc => Some(Command::EditorExit),
            Key::Char(c) => if c == '\n' { Some(Command::EditorSubmit) } else { Some(Command::EditorInput(c)) },
            Key::Enter => Some(Command::EditorSubmit),
            Key::Right => Some(Command::EditorMoveForward),
            Key::Left => Some(Command::EditorMoveBackward),
            Key::Backspace => Some(Command::EditorDelete),
            _ => None,
        };
    }
    match input {
        Key::Left => Some(Command::MoveBack),
        Key::Down => Some(Command::ScrollDown),
        Key::Up => Some(Command::ScrollUp),
        Key::Right => Some(Command::Confirm),
        Key::Char(ch) => {
            crate::util::text::push_char(cmd_str, ch);
            if cmd_str.as_str().unicode_len() != 1 {
                return None;
            }
            let c = cmd_str.as_str().get_char(0);
            if c == 'q' { Some(Command::Quit) }
            else if c == 'e' { Some(Command::EditorEnter) }
            else if c == 'd' { Some(Command::Delete) }
            else if c == 'r' { Some(Command::RefreshViewPanel) }
            else if c == 'f' { Some(Command::ExpandIssue) }
            else if c == 't' { Some(Command::OpenIssueOpInterface(IssueModificationOp::ModifyTitle)) }
            else if c == 'w' { Some(Command::OpenIssueOpInterface(IssueModificationOp::ModifyWorkflowState)) }
            else if c == 'a' { Some(Command::OpenIssueOpInterface(IssueModificationOp::ModifyAssignee)) }
            else if c == 'p' { Some(Command::OpenIssueOpInterface(IssueModificationOp::ModifyProject)) }
            else if c == 'c' { Some(Command::OpenIssueOpInterface(IssueModificationOp::ModifyCycle)) }
            else if c == '1' {
                match current_route {
                    Route::DashboardViewDisplay => Some(Command::SelectDashboardViewList),
                    _ => Some(Command::SelectViewPanel(1)),
                }
            } else if c == '2' {
                match current_route {
                    Route::DashboardViewDisplay => Some(Command::SelectCustomViewSelect),
                    _ => Some(Command::SelectViewPanel(2)),
                }
            }
            else if c == '3' { Some(Command::SelectViewPanel(3)) }
            else if c == '4' { Some(Command::SelectViewPanel(4)) }
            else if c == '5' { Some(Command::SelectViewPanel(5)) }
            else if c == '6' { Some(Command::SelectViewPanel(6)) }
            else { None }
        },
        Key::Esc => Some(Command::EditorExit),
        _ => None,
    }
}

/// The number of slots of the dashboard view list.
pub const VIEW_SLOTS: usize = 6;

/// The filled entries of a list, in order.
pub open spec fn filled<V>(s: Seq<Option<V>>) -> Seq<Option<V>>
    decreases s.len(),
{
    if s.len() == 0 {
        Seq::empty()
    } else if s.last() is Some {
        filled(s.drop_last()).push(s.last())
    } else {
        filled(s.drop_last())
    }
}

/// The list with its filled entries moved to the front, in order, followed
/// by empty slots up to the number of dashboard slots.
pub open spec fn compacted<V>(s: Seq<Option<V>>) -> Seq<Option<V>> {
    let f = filled(s);
    if f.len() < VIEW_SLOTS {
        f + Seq::new((VIEW_SLOTS - f.len()) as nat, |i: int| None::<V>)
    } else {
        f
    }
}

proof fn lemma_filled_all_some<V>(s: Seq<Option<V>>)
    ensures
        filled(s).len() <= s.len(),
        forall|i: int| 0 <= i < filled(s).len() ==> #[trigger] filled(s)[i] is Some,
    decreases s.len(),
{
    if s.len() > 0 {
        lemma_filled_all_some(s.drop_last());
    }
}

proof fn lemma_filled_append<V>(a: Seq<Option<V>>, b: Seq<Option<V>>)
    ensures
        filled(a + b) == filled(a) + filled(b),
    decreases b.len(),
{
    if b.len() == 0 {
        assert(a + b =~= a);
        assert(filled(a) + filled(b) =~= filled(a));
    } else {
        lemma_filled_append(a, b.drop_last());
        assert((a + b).drop_last() =~= a + b.drop_last());
        assert((a + b).last() == b.last());
        if b.last() is Some {
            assert(filled(a) + filled(b.drop_last()).push(b.last()) =~= (filled(a) + filled(b.drop_last())).push(b.last()));
        }
    }
}

proof fn lemma_filled_of_filled<V>(s: Seq<Option<V>>)
    requires
        forall|i: int| 0 <= i < s.len() ==> #[trigger] s[i] is Some,
    ensures
        filled(s) == s,
    decreases s.len(),
{
    if s.len() > 0 {
        lemma_filled_of_filled(s.drop_last());
        assert(s.drop_last().push(s.last()) =~= s);
    }
}

proof fn lemma_filled_of_empty_slots<V>(n: nat)
    ensures
        filled(Seq::new(n, |i: int| None::<V>)) == Seq::<Option<V>>::empty(),
    decreases n,
{
    if n > 0 {
        lemma_filled_of_empty_slots::<V>((n - 1) as nat);
        assert(Seq::new(n, |i: int| None::<V>).drop_last() =~= Seq::new((n - 1) as nat, |i: int| None::<V>));
    }
}

/// Compacting the dashboard view list keeps its views in order: the views of
/// the compacted list are those of the list.
pub proof fn lemma_compacted_keeps_views<V>(s: Seq<Option<V>>)
    ensures
        filled(compacted(s)) == filled(s),
{
    let f = filled(s);
    lemma_filled_all_some(s);
    lemma_filled_of_filled(f);
    if f.len() < VIEW_SLOTS {
        let pad = Seq::new((VIEW_SLOTS - f.len()) as nat, |i: int| None::<V>);
        lemma_filled_append(f, pad);
        lemma_filled_of_empty_slots::<V>((VIEW_SLOTS - f.len()) as nat);
        assert(f + Seq::<Option<V>>::empty() =~= f);
    }
}

/// A compacted dashboard view list has at least as many entries as the
/// dashboard has slots, and no view after an empty slot.
pub proof fn lemma_compacted_shape<V>(s: Seq<Option<V>>)
    ensures
        compacted(s).len() >= VIEW_SLOTS,
        forall|i: int, j: int| 0 <= i < j < compacted(s).len() && (#[trigger] compacted(s)[i]) is None ==> (#[trigger] compacted(s)[j]) is None,
{
    lemma_filled_all_some(s);
}

/// Compacting a compacted dashboard view list changes nothing.
pub proof fn lemma_compacted_idempotent<V>(s: Seq<Option<V>>)
    ensures
        compacted(compacted(s)) == compacted(s),
{
    lemma_compacted_keeps_views(s);
    let f = filled(s);
    lemma_filled_all_some(s);
    assert(filled(compacted(s)) == f);
    if f.len() < VIEW_SLOTS {
        assert(compacted(compacted(s)) =~= compacted(s));
    } else {
        assert(compacted(s) == f);
    }
}

/// Moves the filled slots of the dashboard view list to its front and pads
/// it with empty slots.
pub fn compact_view_list<V>(list: Vec<Option<V>>) -> (r: Vec<Option<V>>)
    ensures
        r@ == compacted(list@),
{
    let ghost orig = list@;
    let n = list.len();
    let mut rest = list;
    let mut kept: Vec<Option<V>> = Vec::new();
    let mut i: usize = 0;
    while rest.len() > 0
        invariant
            i <= orig.len(),
            n == orig.len(),
            rest@ == orig.skip(i as int),
            kept@ == filled(orig.take(i as int)),
        decreases rest@.len(),
    {
        let e = rest.remove(0);
        assert(orig.take(i + 1).drop_last() =~= orig.take(i as int));
        assert(orig.take(i + 1).last() == e);
        if e.is_some() {
            kept.push(e);
        }
        assert(rest@ =~= orig.skip(i + 1));
        i = i + 1;
    }
    assert(orig.take(i as int) =~= orig);
    let ghost f = kept@;
    while kept.len() < VIEW_SLOTS
        invariant
            f.len() <= kept@.len(),
            kept@.subrange(0, f.len() as int) == f,
            f.len() < VIEW_SLOTS ==> kept@.len() <= VIEW_SLOTS,
            forall|j: int| f.len() <= j < kept@.len() ==> #[trigger] kept@[j] is None,
            f.len() >= VIEW_SLOTS ==> kept@ == f,
        decreases VIEW_SLOTS - kept@.len(),
    {
        kept.push(None);
    }
    proof {
        if f.len() < VIEW_SLOTS {
            assert(kept@ =~= f + Seq::new((VIEW_SLOTS - f.len()) as nat, |i: int| None::<V>));
        }
    }
    kept
}



/// Number of entries of the action list ("Modify Dashboard").
pub const ACTIONS_LEN: usize = 1;

/// The navigation state of the application, with `V` the type of a custom
/// view.  View panels are numbered from 1 in `view_panel_selected`.
pub struct AppState<V> {
    pub route: Route,
    pub input_mode: InputMode,
    pub editor_available: bool,
    pub token_entry: TokenEntry,
    pub title_entry: TitleEntry,
    pub token_valid: bool,
    pub team_tz_load_done: bool,
    pub view_list_cache_read_attempted: bool,
    pub actions: ListState,
    pub custom_views: Vec<V>,
    pub custom_view_state: TableState,
    pub custom_view_loading: bool,
    pub selected_custom_view_idx: Option<usize>,
    pub custom_view_cursor: GraphQLCursor,
    pub dashboard_views: Vec<Option<V>>,
    pub dashboard_view_state: TableState,
    pub dashboard_view_idx: Option<usize>,
    pub dashboard_view_list_selected: bool,
    pub view_panels: Vec<DashboardViewPanel<V>>,
    pub view_panel_selected: Option<usize>,
    pub view_panel_issue_selected: Option<TableState>,
    pub view_panel_to_paginate: usize,
    pub issue_expanded: bool,
    pub modifying_issue: bool,
    pub issue_op: LinearIssueOpInterface,
}

impl<V> Default for AppState<V> {
    /// The state at start: on the configuration screen, nothing selected or
    /// loaded, and the dashboard view list made of empty slots.
    fn default() -> (r: AppState<V>)
        ensures
            r.route == Route::ConfigInterface,
            r.input_mode == InputMode::Normal,
            !r.editor_available,
            r.token_entry.input.input@ == Seq::<char>::empty(),
            r.token_entry.input.is_secret,
            r.token_entry.input.cursor_offset == 1,
            r.token_entry.token_validation_state == TokenValidationState::Null,
            r.title_entry.input.input@ == Seq::<char>::empty(),
            !r.title_entry.input.is_secret,
            r.title_entry.input.cursor_offset == 1,
            r.title_entry.title_validation_state == TitleValidationState::Null,
            !r.token_valid,
            !r.team_tz_load_done,
            !r.view_list_cache_read_attempted,
            r.actions.selected is None,
            r.custom_views@.len() == 0,
            r.custom_view_state.selected is None,
            !r.custom_view_loading,
            r.selected_custom_view_idx is None,
            r.custom_view_cursor == (GraphQLCursor { platform: Platform::Linear, has_next_page: false, end_cursor: None }),
            r.dashboard_views@ == Seq::new(VIEW_SLOTS as nat, |i: int| None::<V>),
            r.dashboard_view_state.selected is None,
            r.dashboard_view_idx is None,
            r.dashboard_view_list_selected,
            r.view_panels@.len() == 0,
            r.view_panel_selected is None,
            r.view_panel_issue_selected is None,
            r.view_panel_to_paginate == 0,
            !r.issue_expanded,
            !r.modifying_issue,
            r.issue_op.current_op is None,
            r.issue_op.selected_idx is None,
            !r.issue_op.loading,
            r.issue_op.data_state.selected is None,
            r.issue_op.cursor == (GraphQLCursor { platform: Platform::Linear, has_next_page: false, end_cursor: None }),
            r.issue_op.obj_data.cycles@.len() == 0,
            r.issue_op.obj_data.projects@.len() == 0,
            r.issue_op.obj_data.users@.len() == 0,
            r.issue_op.obj_data.workflow_states@.len() == 0,
    {
        let mut dashboard_views: Vec<Option<V>> = Vec::new();
        let mut i: usize = 0;
        while i < VIEW_SLOTS
            invariant
                i <= VIEW_SLOTS,
                dashboard_views@ == Seq::new(i as nat, |k: int| None::<V>),
            decreases VIEW_SLOTS - i,
        {
            dashboard_views.push(None);
            assert(dashboard_views@ =~= Seq::new((i + 1) as nat, |k: int| None::<V>));
            i = i + 1;
        }
        AppState {
            route: Route::ConfigInterface,
            input_mode: InputMode::Normal,
            editor_available: false,
            token_entry: TokenEntry::default(),
            title_entry: TitleEntry::default(),
            token_valid: false,
            team_tz_load_done: false,
            view_list_cache_read_attempted: false,
            actions: ListState::default(),
            custom_views: Vec::new(),
            custom_view_state: TableState::default(),
            custom_view_loading: false,
            selected_custom_view_idx: None,
            custom_view_cursor: GraphQLCursor::with_platform(Platform::Linear),
            dashboard_views,
            dashboard_view_state: TableState::default(),
            dashboard_view_idx: None,
            dashboard_view_list_selected: true,
            view_panels: Vec::new(),
            view_panel_selected: None,
            view_panel_issue_selected: None,
            view_panel_to_paginate: 0,
            issue_expanded: false,
            modifying_issue: false,
            issue_op: LinearIssueOpInterface::default(),
        }
    }
}

/// Work a command leaves to the application.
#[derive(PartialEq, Eq, Structural, Clone, Copy, Debug)]
pub enum Effect {
    /// Start background work.
    Dispatch(AppEvent),
    /// Stop or resume reading the quit key as quitting, around text editing.
    DisableExitKey,
    EnableExitKey,
    /// Load the dashboard view list cached on disk.
    ReadCachedViewList,
    /// Store the dashboard view list on disk.
    SaveViewList,
    /// Show the issue now selected (see `selected_issue`) in the expanded
    /// issue view, or close the view when none is selected.
    RefreshExpandedIssue,
    /// Close the expanded issue view.
    ClearExpandedIssue,
    /// Drop the issues, cursor and request count of the view panel at this
    /// (0-based) position.
    ResetViewPanel(usize),
}

/// The selected issue as (0-based panel position, issue position), when a
/// panel and one of its issues are selected.
pub open spec fn selected_issue<V>(s: AppState<V>) -> Option<(usize, usize)> {
    match (s.view_panel_selected, s.view_panel_issue_selected) {
        (Some(p), Some(t)) => match t.selected {
            Some(i) => if 1 <= p <= s.view_panels@.len() && i < s.view_panels@[p - 1].issues@.len() {
                Some(((p - 1) as usize, i))
            } else {
                None
            },
            None => None,
        },
        _ => None,
    }
}

/// Finds the selected issue of the selected view panel.
pub fn fetch_selected_view_panel_issue<V>(state: &AppState<V>) -> (r: Option<(usize, usize)>)
    requires
        state.view_panel_selected matches Some(p) ==> p >= 1,
    ensures
        r == selected_issue(*state),
{
    let p = match state.view_panel_selected {
        Some(x) => x,
        None => return None,
    };
    let i = match &state.view_panel_issue_selected {
        Some(t) => match t.selected() {
            Some(y) => y,
            None => return None,
        },
        None => return None,
    };
    if p - 1 >= state.view_panels.len() {
        return None;
    }
    if i >= state.view_panels[p - 1].issues.len() {
        return None;
    }
    Some((p - 1, i))
}

/// Which commands of the dashboard's bar are active: refresh when the
/// selected view panel exists and is not loading, the issue modifications
/// when an issue of it is selected; neither while an issue is expanded.
pub fn action_bar_flags<V>(state: &AppState<V>) -> (r: (bool, bool))
    ensures
        r.0 == (state.view_panel_selected matches Some(p) && 1 <= p && p - 1 < state.view_panels@.len()
            && !state.view_panels@[p - 1].loading && !state.issue_expanded),
        r.1 == (selected_issue(*state) is Some && !state.issue_expanded),
{
    let refresh = match state.view_panel_selected {
        Some(p) => 1 <= p && p - 1 < state.view_panels.len() && !state.view_panels[p - 1].loading && !state.issue_expanded,
        None => false,
    };
    let modify = match state.view_panel_selected {
        Some(p) => if p >= 1 {
            fetch_selected_view_panel_issue(state).is_some() && !state.issue_expanded
        } else {
            false
        },
        None => false,
    };
    (refresh, modify)
}

/// Whether the view list's delete command is active: a filled slot is
/// selected.
pub fn remove_view_active<V>(state: &AppState<V>) -> (r: bool)
    ensures
        r == (state.dashboard_view_idx matches Some(i) && i < state.dashboard_views@.len()
            && state.dashboard_views@[i as int] is Some),
{
    match state.dashboard_view_idx {
        Some(i) => i < state.dashboard_views.len() && state.dashboard_views[i].is_some(),
        None => false,
    }
}

/// The selected view panel's number, counted from 1.
pub fn fetch_selected_view_panel_num<V>(state: &AppState<V>) -> (r: Option<usize>)
    ensures
        r == state.view_panel_selected,
{
    state.view_panel_selected
}

/// The candidate selected in the issue modification modal (see
/// `LinearIssueOpInterface::selected_value`).
pub fn fetch_selected_value<V>(state: &AppState<V>) -> (r: Option<IssueRelatableObject>)
    ensures
        r is Some <==> (state.issue_op.selected_idx matches Some(i) && i < candidate_count(state.issue_op.current_op, state.issue_op.obj_data)),
        r matches Some(o) ==> is_candidate_at(state.issue_op.current_op, state.issue_op.obj_data, state.issue_op.selected_idx->0 as int, o),
{
    state.issue_op.selected_value()
}

/// The selected view panel's position, counted from 0.
pub fn fetch_selected_view_panel_idx<V>(state: &AppState<V>) -> (r: Option<usize>)
    requires
        state.view_panel_selected matches Some(p) ==> p >= 1,
    ensures
        r == match state.view_panel_selected {
            Some(p) => Some((p - 1) as usize),
            None => None::<usize>,
        },
{
    match state.view_panel_selected {
        Some(x) => Some(x - 1),
        None => None,
    }
}

/// Selects the dashboard's view list, clearing the selection in the list of
/// custom views.
pub fn exec_select_dashboard_view_list_cmd<V>(state: &mut AppState<V>)
    ensures
        *final(state) == (AppState {
            dashboard_view_list_selected: true,
            custom_view_state: TableState { selected: None },
            ..*old(state)
        }),
{
    state.dashboard_view_list_selected = true;
    state.custom_view_state = TableState::default();
}

/// Selects the list of custom views, with its first view selected when it
/// has one.
pub fn exec_select_custom_view_select_cmd<V>(state: &mut AppState<V>)
    ensures
        old(state).custom_views@.len() > 0 ==> *final(state) == (AppState {
            dashboard_view_list_selected: false,
            custom_view_state: TableState { selected: Some(0) },
            selected_custom_view_idx: Some(0),
            ..*old(state)
        }),
        old(state).custom_views@.len() == 0 ==> *final(state) == (AppState {
            dashboard_view_list_selected: false,
            ..*old(state)
        }),
{
    state.dashboard_view_list_selected = false;
    if state.custom_views.len() > 0 {
        let mut table_state = TableState::default();
        state_table::next(&mut table_state, &state.custom_views);
        state.selected_custom_view_idx = table_state.selected();
        state.custom_view_state = table_state;
    }
}


/// The state with the expanded issue view following the selection, when the
/// view is open.
pub open spec fn refresh_expanded<V>(s: AppState<V>) -> AppState<V> {
    if s.issue_expanded {
        AppState { issue_expanded: selected_issue(s) is Some, ..s }
    } else {
        s
    }
}

/// The effect that follows a refresh of the expanded issue view.
pub open spec fn refresh_effects<V>(s: AppState<V>) -> Seq<Effect> {
    if s.issue_expanded { seq![Effect::RefreshExpandedIssue] } else { Seq::empty() }
}

/// Points the expanded issue view at the selected issue (closing it when
/// none is selected); returns the issue shown.
pub fn exec_expand_issue_cmd<V>(state: &mut AppState<V>) -> (r: Option<(usize, usize)>)
    requires
        old(state).view_panel_selected matches Some(p) ==> p >= 1,
    ensures
        r == selected_issue(*old(state)),
        *final(state) == (AppState { issue_expanded: r is Some, ..*old(state) }),
{
    let r = fetch_selected_view_panel_issue(state);
    state.issue_expanded = r.is_some();
    r
}

fn refresh_expanded_issue<V>(state: &mut AppState<V>, effects: &mut Vec<Effect>)
    requires
        old(state).view_panel_selected matches Some(p) ==> p >= 1,
    ensures
        *final(state) == refresh_expanded(*old(state)),
        final(effects)@ == old(effects)@ + refresh_effects(*old(state)),
{
    if state.issue_expanded {
        exec_expand_issue_cmd(state);
        effects.push(Effect::RefreshExpandedIssue);
        assert(final(effects)@ =~= old(effects)@ + refresh_effects(*old(state)));
    } else {
        assert(old(effects)@ + refresh_effects(*old(state)) =~= old(effects)@);
    }
}

fn actions_next(actions: &mut ListState)
    ensures
        final(actions).selected == Some(next_index(old(actions).selected, ACTIONS_LEN as nat)),
{
    let i: usize = match actions.selected() {
        Some(i) => if i >= ACTIONS_LEN - 1 { 0 } else { i + 1 },
        None => 0,
    };
    actions.select(Some(i));
}

/// Selects view panel `view_panel_idx` (counted from 1) on the action
/// screen, unless it does not exist or an issue is being modified; the
/// panel's first issue is selected when it has issues, and the action list
/// loses its selection.
pub open spec fn select_view_panel_spec<V>(s: AppState<V>, idx: usize) -> (AppState<V>, Seq<Effect>) {
    if s.route == Route::ActionSelect && idx <= s.view_panels@.len() && !s.modifying_issue {
        let s1 = AppState {
            view_panel_selected: Some(idx),
            view_panel_issue_selected: if s.view_panels@[idx - 1].issues@.len() > 0 {
                Some(TableState { selected: Some(0) })
            } else {
                s.view_panel_issue_selected
            },
            ..s
        };
        (AppState { actions: ListState { selected: None }, ..refresh_expanded(s1) }, refresh_effects(s1))
    } else {
        (s, Seq::empty())
    }
}

pub fn exec_select_view_panel_cmd<V>(state: &mut AppState<V>, view_panel_idx: usize) -> (r: Vec<Effect>)
    requires
        view_panel_idx >= 1,
    ensures
        (*final(state), r@) == select_view_panel_spec(*old(state), view_panel_idx),
{
    let mut effects: Vec<Effect> = Vec::new();
    if state.route == Route::ActionSelect {
        if view_panel_idx <= state.view_panels.len() && !state.modifying_issue {
            state.view_panel_selected = Some(view_panel_idx);
            if state.view_panels[view_panel_idx - 1].issues.len() > 0 {
                let mut table_state = TableState::default();
                state_table::next(&mut table_state, &state.view_panels[view_panel_idx - 1].issues);
                state.view_panel_issue_selected = Some(table_state);
            }
            refresh_expanded_issue(state, &mut effects);
            state_list::unselect(&mut state.actions);
        }
    }
    assert(effects@ =~= select_view_panel_spec(*old(state), view_panel_idx).1);
    effects
}

/// Selecting a view panel that has issues on the action screen selects its
/// first issue, whatever issue was selected before.
pub proof fn lemma_select_panel_selects_first_issue<V>(s: AppState<V>, idx: usize)
    requires
        s.route == Route::ActionSelect,
        !s.modifying_issue,
        1 <= idx <= s.view_panels@.len(),
        s.view_panels@[idx - 1].issues@.len() > 0,
    ensures
        ({
            let fin = select_view_panel_spec(s, idx).0;
            &&& fin.view_panel_selected == Some(idx)
            &&& fin.view_panel_issue_selected == Some(TableState { selected: Some(0) })
            &&& selected_issue(fin) == Some(((idx - 1) as usize, 0usize))
        }),
{
}

/// Moves to a screen and prepares it: the configuration screen opens its
/// editor; the action screen selects the next action, asks for the cached
/// view list unless it was read, and loads the dashboard views; the
/// dashboard view list screen clears the list of custom views and loads it
/// anew.
pub open spec fn change_route_spec<V>(s: AppState<V>, route: Route, fin: AppState<V>, effects: Seq<Effect>) -> bool {
    match route {
        Route::ConfigInterface => {
            &&& fin == (AppState {
                route: Route::ConfigInterface,
                input_mode: InputMode::Edit,
                actions: ListState { selected: None },
                ..s
            })
            &&& effects == Seq::<Effect>::empty()
        },
        Route::ActionSelect => {
            &&& fin == (AppState {
                route: Route::ActionSelect,
                input_mode: InputMode::Normal,
                actions: ListState { selected: Some(next_index(s.actions.selected, ACTIONS_LEN as nat)) },
                ..s
            })
            &&& effects == if !s.view_list_cache_read_attempted {
                seq![Effect::ReadCachedViewList, Effect::Dispatch(AppEvent::LoadDashboardViews)]
            } else {
                seq![Effect::Dispatch(AppEvent::LoadDashboardViews)]
            }
        },
        Route::DashboardViewDisplay => {
            &&& fin.custom_views@.len() == 0
            &&& fin == (AppState {
                route: Route::DashboardViewDisplay,
                input_mode: InputMode::Normal,
                actions: ListState { selected: None },
                custom_views: fin.custom_views,
                custom_view_state: TableState { selected: None },
                custom_view_loading: false,
                selected_custom_view_idx: None,
                custom_view_cursor: GraphQLCursor { platform: Platform::Linear, has_next_page: false, end_cursor: None },
                dashboard_view_list_selected: true,
                ..s
            })
            &&& effects == seq![Effect::Dispatch(AppEvent::LoadCustomViews)]
        },
    }
}

pub fn change_route<V>(state: &mut AppState<V>, route: Route) -> (r: Vec<Effect>)
    ensures
        change_route_spec(*old(state), route, *final(state), r@),
{
    let mut effects: Vec<Effect> = Vec::new();
    match route {
        Route::ConfigInterface => {
            state.input_mode = InputMode::Edit;
            state_list::unselect(&mut state.actions);
        },
        Route::ActionSelect => {
            state.input_mode = InputMode::Normal;
            actions_next(&mut state.actions);
            if !state.view_list_cache_read_attempted {
                effects.push(Effect::ReadCachedViewList);
            }
            effects.push(Effect::Dispatch(AppEvent::LoadDashboardViews));
            proof {
                if !old(state).view_list_cache_read_attempted {
                    assert(effects@ =~= seq![Effect::ReadCachedViewList, Effect::Dispatch(AppEvent::LoadDashboardViews)]);
                } else {
                    assert(effects@ =~= seq![Effect::Dispatch(AppEvent::LoadDashboardViews)]);
                }
            }
        },
        Route::DashboardViewDisplay => {
            state.input_mode = InputMode::Normal;
            state_list::unselect(&mut state.actions);
            state.custom_views = Vec::new();
            state.custom_view_state = TableState::default();
            state.custom_view_loading = false;
            state.selected_custom_view_idx = None;
            state.custom_view_cursor = GraphQLCursor::with_platform(Platform::Linear);
            state.dashboard_view_list_selected = true;
            effects.push(Effect::Dispatch(AppEvent::LoadCustomViews));
            assert(effects@ =~= seq![Effect::Dispatch(AppEvent::LoadCustomViews)]);
        },
    }
    assert(effects@ =~= Seq::<Effect>::empty() || route != Route::ConfigInterface);
    state.route = route;
    assert(change_route_spec(*old(state), route, *state, effects@));
    effects
}


/// Number of candidates loaded for a modification chosen from a table.
pub open spec fn op_data_len(op: Option<IssueModificationOp>, data: ModificationOpData) -> Option<nat> {
    match op {
        Some(IssueModificationOp::ModifyWorkflowState) => Some(data.workflow_states@.len()),
        Some(IssueModificationOp::ModifyAssignee) => Some(data.users@.len()),
        Some(IssueModificationOp::ModifyProject) => Some(data.projects@.len()),
        Some(IssueModificationOp::ModifyCycle) => Some(data.cycles@.len()),
        _ => None,
    }
}

fn op_data_count(op_interface: &LinearIssueOpInterface) -> (r: Option<usize>)
    ensures
        r matches Some(n) ==> op_data_len(op_interface.current_op, op_interface.obj_data) == Some(n as nat),
        r is None <==> op_data_len(op_interface.current_op, op_interface.obj_data) is None,
{
    match op_interface.current_op {
        Some(IssueModificationOp::ModifyWorkflowState) => Some(op_interface.obj_data.workflow_states.len()),
        Some(IssueModificationOp::ModifyAssignee) => Some(op_interface.obj_data.users.len()),
        Some(IssueModificationOp::ModifyProject) => Some(op_interface.obj_data.projects.len()),
        Some(IssueModificationOp::ModifyCycle) => Some(op_interface.obj_data.cycles.len()),
        _ => None,
    }
}

/// A view panel's query has no page left.
pub open spec fn panel_exhausted<V>(p: DashboardViewPanel<V>) -> bool {
    match p.cursor {
        Some(c) => exhausted(c),
        None => false,
    }
}

/// The state with the selected candidate of the modification at `i`.
pub open spec fn with_op_selection<V>(s: AppState<V>, i: usize) -> AppState<V> {
    AppState {
        issue_op: LinearIssueOpInterface {
            data_state: TableState { selected: Some(i) },
            selected_idx: Some(i),
            ..s.issue_op
        },
        ..s
    }
}

/// The indexing a scroll command does stays in bounds: on the action
/// screen the selected view panel (if any) exists, and on the view list
/// screen an empty view list has no selection.
pub open spec fn scroll_ok<V>(s: AppState<V>) -> bool {
    &&& s.route == Route::ActionSelect ==> (s.view_panel_selected matches Some(p) ==> p >= 1)
    &&& s.route == Route::ActionSelect && !s.modifying_issue ==> (s.view_panel_selected matches Some(p)
        ==> p <= s.view_panels@.len())
    &&& s.route == Route::DashboardViewDisplay && s.dashboard_view_list_selected ==> state_table::can_move(
        s.dashboard_view_state.selected,
        s.dashboard_views@.len(),
    )
}

/// Whether a scroll command may run in state `s` (see `scroll_ok`).
pub fn can_scroll<V>(s: &AppState<V>) -> (r: bool)
    ensures
        r == scroll_ok(*s),
{
    let panel_ok = match s.view_panel_selected {
        Some(p) => p >= 1 && (s.modifying_issue || p <= s.view_panels.len()),
        None => true,
    };
    let list_ok = s.dashboard_view_state.selected.is_none() || s.dashboard_views.len() > 0;
    (s.route != Route::ActionSelect || panel_ok) && (s.route != Route::DashboardViewDisplay || !s.dashboard_view_list_selected || list_ok)
}

/// Scrolling down through the candidates of an open modification: the
/// next candidate is selected, except at the end of a list with another
/// page to load, which is asked for instead (`true`).
pub open spec fn op_down_spec<V>(s: AppState<V>, n: nat) -> (AppState<V>, bool) {
    if is_last(s.issue_op.data_state.selected, n) && s.issue_op.cursor.has_next_page {
        (s, true)
    } else {
        (with_op_selection(s, next_index(s.issue_op.data_state.selected, n)), false)
    }
}

/// Scrolling down through the issues of view panel `p` (counted from 1):
/// the next issue is selected (the first when none is), except at the end
/// of a panel with more issues to load, which marks the panel for loading
/// its next page instead (`true`).
pub open spec fn panel_down_spec<V>(s: AppState<V>, p: usize) -> (AppState<V>, bool) {
    let panel = s.view_panels@[p - 1];
    let n = panel.issues@.len();
    match s.view_panel_issue_selected {
        Some(ts) => if n > 0 {
            if is_last(ts.selected, n) && !panel_exhausted(panel) {
                (AppState { view_panel_to_paginate: (p - 1) as usize, ..s }, true)
            } else {
                (AppState {
                    view_panel_issue_selected: Some(TableState { selected: Some(next_index(ts.selected, n)) }),
                    ..s
                }, false)
            }
        } else {
            (s, false)
        },
        None => if n > 0 {
            (AppState { view_panel_issue_selected: Some(TableState { selected: Some(0) }), ..s }, false)
        } else {
            (s, false)
        },
    }
}

/// Scrolling down on the view list screen: through the dashboard slots, or
/// through the custom views, asking for more at the end of a paginated list.
pub open spec fn display_down_spec<V>(s: AppState<V>) -> (AppState<V>, Seq<Effect>) {
    if s.dashboard_view_list_selected {
        let i = next_index(s.dashboard_view_state.selected, s.dashboard_views@.len());
        (AppState { dashboard_view_state: TableState { selected: Some(i) }, dashboard_view_idx: Some(i), ..s }, Seq::empty())
    } else {
        let n = s.custom_views@.len();
        if n == 0 {
            (s, Seq::empty())
        } else if is_last(s.custom_view_state.selected, n) && s.custom_view_cursor.has_next_page {
            (s, seq![Effect::Dispatch(AppEvent::LoadCustomViews)])
        } else {
            let i = next_index(s.custom_view_state.selected, n);
            (AppState { custom_view_state: TableState { selected: Some(i) }, selected_custom_view_idx: Some(i), ..s }, Seq::empty())
        }
    }
}

/// Scrolling down.  On the action screen it moves through the candidates
/// of an open modification, else through the issues of the selected view
/// panel, else through the actions, and the expanded issue view follows the
/// selection; a title edit and an empty or unloaded list of candidates
/// ignore it.  On the view list screen see `display_down_spec`.
pub open spec fn scroll_down_spec<V>(s: AppState<V>) -> (AppState<V>, Seq<Effect>) {
    match s.route {
        Route::ConfigInterface => (s, Seq::empty()),
        Route::ActionSelect => {
            if s.modifying_issue && s.issue_op.current_op == Some(IssueModificationOp::ModifyTitle) {
                (s, Seq::empty())
            } else if s.modifying_issue {
                match op_data_len(s.issue_op.current_op, s.issue_op.obj_data) {
                    None => (s, Seq::empty()),
                    Some(n) => if n == 0 {
                        (s, Seq::empty())
                    } else {
                        let (s1, load) = op_down_spec(s, n);
                        (refresh_expanded(s1), if load {
                            seq![Effect::Dispatch(AppEvent::LoadIssueOpData)]
                        } else {
                            Seq::empty()
                        } + refresh_effects(s1))
                    },
                }
            } else {
                match s.view_panel_selected {
                    Some(p) => {
                        let (s1, paginate) = panel_down_spec(s, p);
                        (refresh_expanded(s1), refresh_effects(s1) + if paginate {
                            seq![Effect::Dispatch(AppEvent::PaginateDashboardView)]
                        } else {
                            Seq::empty()
                        })
                    },
                    None => {
                        let s1 = AppState {
                            actions: ListState { selected: Some(next_index(s.actions.selected, ACTIONS_LEN as nat)) },
                            ..s
                        };
                        (refresh_expanded(s1), refresh_effects(s1))
                    },
                }
            }
        },
        Route::DashboardViewDisplay => display_down_spec(s),
    }
}

fn op_down<V>(state: &mut AppState<V>, n: usize) -> (r: bool)
    requires
        n > 0,
        op_data_len(old(state).issue_op.current_op, old(state).issue_op.obj_data) == Some(n as nat),
    ensures
        (*final(state), r) == op_down_spec(*old(state), n as nat),
{
    let last = if let Some(x) = state.issue_op.data_state.selected() {
        x >= n - 1 || ((x + 1) as i32) == 0
    } else {
        false
    };
    if last && state.issue_op.cursor.has_next_page {
        true
    } else {
        let i: usize = match state.issue_op.data_state.selected() {
            Some(i) => if i >= n - 1 { 0 } else { i + 1 },
            None => 0,
        };
        state.issue_op.data_state.select(Some(i));
        state.issue_op.selected_idx = state.issue_op.data_state.selected();
        false
    }
}

fn panel_down<V>(state: &mut AppState<V>, p: usize) -> (r: bool)
    requires
        1 <= p <= old(state).view_panels@.len(),
    ensures
        (*final(state), r) == panel_down_spec(*old(state), p),
{
    let n = state.view_panels[p - 1].issues.len();
    match &state.view_panel_issue_selected {
        Some(table_state) => {
            if n > 0 {
                let last = state_table::is_last_element(table_state, &state.view_panels[p - 1].issues);
                let cursor_is_exhausted = match &state.view_panels[p - 1].cursor {
                    Some(c) => crate::util::cursor::is_exhausted(c),
                    None => false,
                };
                if last && !cursor_is_exhausted {
                    state.view_panel_to_paginate = p - 1;
                    true
                } else {
                    let ts = state_table::with_next(table_state, &state.view_panels[p - 1].issues);
                    state.view_panel_issue_selected = Some(ts);
                    false
                }
            } else {
                false
            }
        },
        None => {
            if n > 0 {
                let mut table_state = TableState::default();
                state_table::next(&mut table_state, &state.view_panels[p - 1].issues);
                state.view_panel_issue_selected = Some(table_state);
            }
            false
        },
    }
}

fn display_down<V>(state: &mut AppState<V>) -> (r: Vec<Effect>)
    requires
        old(state).dashboard_view_list_selected ==> state_table::can_move(
            old(state).dashboard_view_state.selected,
            old(state).dashboard_views@.len(),
        ),
    ensures
        (*final(state), r@) == display_down_spec(*old(state)),
{
    let mut effects: Vec<Effect> = Vec::new();
    if state.dashboard_view_list_selected {
        state_table::next(&mut state.dashboard_view_state, &state.dashboard_views);
        state.dashboard_view_idx = state.dashboard_view_state.selected();
    } else {
        let n = state.custom_views.len();
        if n > 0 {
            let last = state_table::is_last_element(&state.custom_view_state, &state.custom_views);
            if last && state.custom_view_cursor.has_next_page {
                effects.push(Effect::Dispatch(AppEvent::LoadCustomViews));
                assert(effects@ =~= seq![Effect::Dispatch(AppEvent::LoadCustomViews)]);
            } else {
                state_table::next(&mut state.custom_view_state, &state.custom_views);
                state.selected_custom_view_idx = state.custom_view_state.selected();
            }
        }
    }
    effects
}

pub fn exec_scroll_down_cmd<V>(state: &mut AppState<V>) -> (r: Vec<Effect>)
    requires
        scroll_ok(*old(state)),
    ensures
        (*final(state), r@) == scroll_down_spec(*old(state)),
{
    let mut effects: Vec<Effect> = Vec::new();
    match state.route {
        Route::ConfigInterface => effects,
        Route::ActionSelect => {
            if state.modifying_issue && state.issue_op.current_op == Some(IssueModificationOp::ModifyTitle) {
                effects
            } else if state.modifying_issue {
                let n = match op_data_count(&state.issue_op) {
                    Some(n) => n,
                    None => return effects,
                };
                if n == 0 {
                    return effects;
                }
                if op_down(state, n) {
                    effects.push(Effect::Dispatch(AppEvent::LoadIssueOpData));
                }
                let ghost mid = effects@;
                refresh_expanded_issue(state, &mut effects);
                effects
            } else if let Some(p) = state.view_panel_selected {
                let paginate = panel_down(state, p);
                refresh_expanded_issue(state, &mut effects);
                if paginate {
                    effects.push(Effect::Dispatch(AppEvent::PaginateDashboardView));
                }
                effects
            } else {
                actions_next(&mut state.actions);
                refresh_expanded_issue(state, &mut effects);
                effects
            }
        },
        Route::DashboardViewDisplay => display_down(state),
    }
}


/// The indexing of scrolling up stays in bounds: besides `scroll_ok`, the
/// candidates of an open modification, when they are empty, have no
/// selection.
pub open spec fn scroll_up_ok<V>(s: AppState<V>) -> bool {
    &&& scroll_ok(s)
    &&& s.route == Route::ActionSelect && s.modifying_issue && s.issue_op.current_op != Some(IssueModificationOp::ModifyTitle)
        ==> (op_data_len(s.issue_op.current_op, s.issue_op.obj_data) matches Some(n) ==> state_table::can_move(
        s.issue_op.data_state.selected,
        n,
    ))
}

/// Whether scrolling up may run in state `s` (see `scroll_up_ok`).
pub fn can_scroll_up<V>(s: &AppState<V>) -> (r: bool)
    ensures
        r == scroll_up_ok(*s),
{
    if !can_scroll(s) {
        return false;
    }
    if s.route == Route::ActionSelect && s.modifying_issue && s.issue_op.current_op != Some(IssueModificationOp::ModifyTitle) {
        match op_data_count(&s.issue_op) {
            Some(n) => s.issue_op.data_state.selected.is_none() || n > 0,
            None => true,
        }
    } else {
        true
    }
}


/// previous issue is selected, or the first one when none is.
pub open spec fn panel_up_spec<V>(s: AppState<V>, p: usize) -> AppState<V> {
    let n = s.view_panels@[p - 1].issues@.len();
    match s.view_panel_issue_selected {
        Some(ts) => if n > 0 {
            AppState {
                view_panel_issue_selected: Some(TableState { selected: Some(previous_index(ts.selected, n)) }),
                ..s
            }
        } else {
            s
        },
        None => if n > 0 {
            AppState { view_panel_issue_selected: Some(TableState { selected: Some(0) }), ..s }
        } else {
            s
        },
    }
}

/// Scrolling up on the view list screen: through the dashboard slots, or
/// through the custom views when there are any.
pub open spec fn display_up_spec<V>(s: AppState<V>) -> AppState<V> {
    if s.dashboard_view_list_selected {
        let i = previous_index(s.dashboard_view_state.selected, s.dashboard_views@.len());
        AppState { dashboard_view_state: TableState { selected: Some(i) }, dashboard_view_idx: Some(i), ..s }
    } else {
        let n = s.custom_views@.len();
        if n == 0 {
            s
        } else {
            let i = previous_index(s.custom_view_state.selected, n);
            AppState { custom_view_state: TableState { selected: Some(i) }, selected_custom_view_idx: Some(i), ..s }
        }
    }
}

/// Scrolling up.  On the action screen it moves back through the
/// candidates of an open modification (a title edit leaves them alone),
/// else through the issues of the selected view panel (selecting the first
/// issue when none is), else forward through the actions; the expanded
/// issue view follows the selection, except when no candidates are loaded.
/// On the view list screen see `display_up_spec`.
pub open spec fn scroll_up_spec<V>(s: AppState<V>) -> (AppState<V>, Seq<Effect>) {
    match s.route {
        Route::ConfigInterface => (s, Seq::empty()),
        Route::ActionSelect => {
            if s.modifying_issue && s.issue_op.current_op == Some(IssueModificationOp::ModifyTitle) {
                (refresh_expanded(s), refresh_effects(s))
            } else if s.modifying_issue {
                match op_data_len(s.issue_op.current_op, s.issue_op.obj_data) {
                    None => (s, Seq::empty()),
                    Some(n) => {
                        let s1 = with_op_selection(s, previous_index(s.issue_op.data_state.selected, n));
                        (refresh_expanded(s1), refresh_effects(s1))
                    },
                }
            } else {
                let s1 = match s.view_panel_selected {
                    Some(p) => panel_up_spec(s, p),
                    None => AppState {
                        actions: ListState { selected: Some(next_index(s.actions.selected, ACTIONS_LEN as nat)) },
                        ..s
                    },
                };
                (refresh_expanded(s1), refresh_effects(s1))
            }
        },
        Route::DashboardViewDisplay => (display_up_spec(s), Seq::empty()),
    }
}

fn panel_up<V>(state: &mut AppState<V>, p: usize)
    requires
        1 <= p <= old(state).view_panels@.len(),
    ensures
        *final(state) == panel_up_spec(*old(state), p),
{
    let n = state.view_panels[p - 1].issues.len();
    match &state.view_panel_issue_selected {
        Some(table_state) => {
            if n > 0 {
                let ts = state_table::with_previous(table_state, &state.view_panels[p - 1].issues);
                state.view_panel_issue_selected = Some(ts);
            }
        },
        None => {
            if n > 0 {
                let mut table_state = TableState::default();
                state_table::next(&mut table_state, &state.view_panels[p - 1].issues);
                state.view_panel_issue_selected = Some(table_state);
            }
        },
    }
}

fn display_up<V>(state: &mut AppState<V>)
    requires
        old(state).dashboard_view_list_selected ==> state_table::can_move(
            old(state).dashboard_view_state.selected,
            old(state).dashboard_views@.len(),
        ),
    ensures
        *final(state) == display_up_spec(*old(state)),
{
    if state.dashboard_view_list_selected {
        state_table::previous(&mut state.dashboard_view_state, &state.dashboard_views);
        state.dashboard_view_idx = state.dashboard_view_state.selected();
    } else if state.custom_views.len() > 0 {
        state_table::previous(&mut state.custom_view_state, &state.custom_views);
        state.selected_custom_view_idx = state.custom_view_state.selected();
    }
}

pub fn exec_scroll_up_cmd<V>(state: &mut AppState<V>) -> (r: Vec<Effect>)
    requires
        scroll_up_ok(*old(state)),
    ensures
        (*final(state), r@) == scroll_up_spec(*old(state)),
{
    let mut effects: Vec<Effect> = Vec::new();
    match state.route {
        Route::ConfigInterface => effects,
        Route::ActionSelect => {
            if state.modifying_issue && state.issue_op.current_op == Some(IssueModificationOp::ModifyTitle) {
            } else if state.modifying_issue {
                let n = match op_data_count(&state.issue_op) {
                    Some(n) => n,
                    None => return effects,
                };
                let i: usize = match state.issue_op.data_state.selected() {
                    Some(i) => if i == 0 { n - 1 } else { i - 1 },
                    None => 0,
                };
                state.issue_op.data_state.select(Some(i));
                state.issue_op.selected_idx = state.issue_op.data_state.selected();
            } else if let Some(p) = state.view_panel_selected {
                panel_up(state, p);
            } else {
                actions_next(&mut state.actions);
            }
            refresh_expanded_issue(state, &mut effects);
            effects
        },
        Route::DashboardViewDisplay => {
            display_up(state);
            effects
        },
    }
}


/// Moving back: on the action screen it closes an open modification, else
/// the expanded issue view, else unselects the view panel (selecting the
/// next action), else returns to the configuration screen.  On the view
/// list screen it returns from the custom views to the dashboard slots,
/// else to the action screen.
pub open spec fn move_back_spec<V>(s: AppState<V>, fin: AppState<V>, effects: Seq<Effect>) -> bool {
    match s.route {
        Route::ConfigInterface => fin == s && effects == Seq::<Effect>::empty(),
        Route::ActionSelect => {
            if s.modifying_issue {
                &&& reset_post(s.issue_op, fin.issue_op)
                &&& fin == (AppState { modifying_issue: false, editor_available: false, issue_op: fin.issue_op, ..s })
                &&& effects == Seq::<Effect>::empty()
            } else if s.issue_expanded {
                fin == (AppState { issue_expanded: false, ..s }) && effects == seq![Effect::ClearExpandedIssue]
            } else if s.view_panel_selected is Some {
                &&& fin == (AppState {
                    view_panel_selected: None,
                    actions: ListState { selected: Some(next_index(s.actions.selected, ACTIONS_LEN as nat)) },
                    ..s
                })
                &&& effects == Seq::<Effect>::empty()
            } else {
                change_route_spec(s, Route::ConfigInterface, fin, effects)
            }
        },
        Route::DashboardViewDisplay => {
            if !s.dashboard_view_list_selected {
                &&& fin == (AppState {
                    dashboard_view_list_selected: true,
                    custom_view_state: TableState { selected: None },
                    ..s
                })
                &&& effects == Seq::<Effect>::empty()
            } else {
                change_route_spec(s, Route::ActionSelect, fin, effects)
            }
        },
    }
}

/// An open modification can be closed.
pub open spec fn move_back_ok<V>(s: AppState<V>) -> bool {
    s.route == Route::ActionSelect && s.modifying_issue ==> resettable(s.issue_op.current_op)
}

/// Whether moving back (or opening a modification) may run in state `s`
/// (see `move_back_ok`).
pub fn can_move_back<V>(s: &AppState<V>) -> (r: bool)
    ensures
        r == move_back_ok(*s),
{
    if s.route == Route::ActionSelect && s.modifying_issue {
        match s.issue_op.current_op {
            Some(IssueModificationOp::ModifyTeam) => false,
            Some(IssueModificationOp::ModifyLabels) => false,
            Some(_) => true,
            None => false,
        }
    } else {
        true
    }
}

pub fn exec_move_back_cmd<V>(state: &mut AppState<V>) -> (r: Vec<Effect>)
    requires
        move_back_ok(*old(state)),
    ensures
        move_back_spec(*old(state), *final(state), r@),
{
    let mut effects: Vec<Effect> = Vec::new();
    match state.route {
        Route::ConfigInterface => {},
        Route::ActionSelect => {
            if state.modifying_issue {
                state.modifying_issue = false;
                state.issue_op.reset_op();
                state.editor_available = false;
            } else if state.issue_expanded {
                state.issue_expanded = false;
                effects.push(Effect::ClearExpandedIssue);
                assert(effects@ =~= seq![Effect::ClearExpandedIssue]);
            } else if state.view_panel_selected.is_some() {
                state.view_panel_selected = None;
                actions_next(&mut state.actions);
            } else {
                return change_route(state, Route::ConfigInterface);
            }
        },
        Route::DashboardViewDisplay => {
            if !state.dashboard_view_list_selected {
                exec_select_dashboard_view_list_cmd(state);
            } else {
                return change_route(state, Route::ActionSelect);
            }
        },
    }
    effects
}

/// The distance to the next row, taken as a 32-bit signed value, is zero
/// exactly when the next row's number is a multiple of 2^32.
proof fn lemma_next_row_wraps_i32(x: usize)
    ensures
        (((x + 1) as i32) == 0) == ((x + 1) % 0x1_0000_0000 == 0),
{
    assert((((x + 1) as i32) == 0) == ((x + 1) % 0x1_0000_0000 == 0)) by (bit_vector);
}

/// On the view list screen with the custom views in focus, scrolling up
/// selects the custom view before the selected one, and the last one from
/// the first; the chosen view follows the selection and nothing else
/// changes.
pub proof fn lemma_scroll_up_custom_views<V>(s: AppState<V>, i: usize)
    requires
        s.route == Route::DashboardViewDisplay,
        !s.dashboard_view_list_selected,
        s.custom_view_state.selected == Some(i),
        i < s.custom_views@.len() <= usize::MAX,
    ensures
        ({
            let (fin, effects) = scroll_up_spec(s);
            let want: int = if i == 0 { s.custom_views@.len() - 1 } else { i - 1 };
            &&& fin.custom_view_state.selected matches Some(j) && j == want
            &&& fin.selected_custom_view_idx == fin.custom_view_state.selected
            &&& fin == (AppState {
                custom_view_state: fin.custom_view_state,
                selected_custom_view_idx: fin.selected_custom_view_idx,
                ..s
            })
            &&& effects.len() == 0
        }),
{
}

/// On the view list screen with the custom views in focus, scrolling down
/// and then up returns to the custom view selected at first, unless the
/// way down asked for another page of custom views instead of moving.
pub proof fn lemma_custom_views_down_then_up<V>(s: AppState<V>, i: usize)
    requires
        s.route == Route::DashboardViewDisplay,
        !s.dashboard_view_list_selected,
        s.custom_view_state.selected == Some(i),
        i < s.custom_views@.len() <= usize::MAX,
        s.custom_view_cursor.has_next_page ==> i + 1 < s.custom_views@.len() && (i + 1) % 0x1_0000_0000 != 0,
    ensures
        ({
            let back = scroll_up_spec(scroll_down_spec(s).0).0;
            &&& back.custom_view_state.selected == Some(i)
            &&& back.selected_custom_view_idx == Some(i)
            &&& back == (AppState {
                custom_view_state: back.custom_view_state,
                selected_custom_view_idx: back.selected_custom_view_idx,
                ..s
            })
        }),
{
    lemma_next_row_wraps_i32(i);
    state_table::lemma_next_previous_inverse(i, s.custom_views@.len());
}

/// While a modification taken from a list of candidates is open, scrolling
/// keeps the candidate that a confirmation sends equal to the highlighted
/// row.  Up highlights the row before (the last from the first, the first
/// when none is); down highlights the row after (the first from the last,
/// the first when none is), except at the end of a loaded list with another
/// page to come, which leaves the modification as it is and asks for that
/// page.
pub proof fn lemma_scroll_keeps_candidate_with_highlight<V>(s: AppState<V>, n: nat)
    requires
        s.route == Route::ActionSelect,
        s.modifying_issue,
        s.issue_op.current_op != Some(IssueModificationOp::ModifyTitle),
        op_data_len(s.issue_op.current_op, s.issue_op.obj_data) == Some(n),
        0 < n <= usize::MAX,
        s.issue_op.data_state.selected matches Some(i) ==> i < n,
    ensures
        ({
            let up = scroll_up_spec(s).0.issue_op;
            &&& up.selected_idx == up.data_state.selected
            &&& up.data_state.selected matches Some(j) && j == match s.issue_op.data_state.selected {
                Some(i) => if i == 0 { n - 1 } else { i - 1 },
                None => 0,
            }
        }),
        ({
            let down = scroll_down_spec(s).0.issue_op;
            let asks_page = s.issue_op.cursor.has_next_page && (s.issue_op.data_state.selected matches Some(i)
                && (i + 1 >= n || (i + 1) % 0x1_0000_0000 == 0));
            &&& asks_page ==> down == s.issue_op
            &&& !asks_page ==> down.selected_idx == down.data_state.selected
            &&& !asks_page ==> (down.data_state.selected matches Some(j) && j == match s.issue_op.data_state.selected {
                Some(i) => if i + 1 >= n { 0 } else { i + 1 },
                None => 0,
            })
        }),
{
    if let Some(i) = s.issue_op.data_state.selected {
        lemma_next_row_wraps_i32(i);
    }
}

/// On the view list screen, moving back from the custom views stays on the
/// screen and only returns the focus to the dashboard slots, clearing the
/// custom view selection; only from the slots does it leave for the action
/// screen.
pub proof fn lemma_move_back_on_view_list<V>(s: AppState<V>, fin: AppState<V>, effects: Seq<Effect>)
    requires
        move_back_spec(s, fin, effects),
        s.route == Route::DashboardViewDisplay,
    ensures
        !s.dashboard_view_list_selected ==> {
            &&& fin.route == Route::DashboardViewDisplay
            &&& fin.dashboard_view_list_selected
            &&& fin.custom_view_state.selected is None
            &&& fin == (AppState {
                dashboard_view_list_selected: fin.dashboard_view_list_selected,
                custom_view_state: fin.custom_view_state,
                ..s
            })
            &&& effects.len() == 0
        },
        s.dashboard_view_list_selected ==> fin.route == Route::ActionSelect,
{
}

/// Confirming: on the configuration screen with a valid token it moves to
/// the action screen; on the action screen it sends a ready modification,
/// or, once team time zones are loaded, opens the dashboard view list for
/// the first action; on the view list screen it moves from a chosen slot to
/// the custom views, or places the chosen custom view in the chosen slot
/// (compacting and saving the list) and returns to the slots.
pub open spec fn confirm_spec<V: Clone>(s: AppState<V>, fin: AppState<V>, effects: Seq<Effect>) -> bool {
    match s.route {
        Route::ConfigInterface => if s.token_valid {
            change_route_spec(s, Route::ActionSelect, fin, effects)
        } else {
            fin == s && effects == Seq::<Effect>::empty()
        },
        Route::ActionSelect => {
            if s.modifying_issue && valid_selection(s.issue_op.current_op, s.issue_op.selected_idx, s.title_entry.input.input@) {
                fin == (AppState { modifying_issue: false, ..s }) && effects == seq![Effect::Dispatch(AppEvent::UpdateIssue)]
            } else if s.actions.selected == Some(0usize) && s.team_tz_load_done {
                change_route_spec(s, Route::DashboardViewDisplay, fin, effects)
            } else {
                fin == s && effects == Seq::<Effect>::empty()
            }
        },
        Route::DashboardViewDisplay => {
            if s.dashboard_view_list_selected {
                &&& effects == Seq::<Effect>::empty()
                &&& if s.dashboard_view_idx is Some {
                    if s.custom_views@.len() > 0 {
                        fin == (AppState {
                            dashboard_view_list_selected: false,
                            custom_view_state: TableState { selected: Some(0) },
                            selected_custom_view_idx: Some(0),
                            ..s
                        })
                    } else {
                        fin == (AppState { dashboard_view_list_selected: false, ..s })
                    }
                } else {
                    fin == s
                }
            } else {
                match s.selected_custom_view_idx {
                    Some(idx) => {
                        &&& fin == (AppState {
                            dashboard_views: fin.dashboard_views,
                            dashboard_view_list_selected: true,
                            custom_view_state: TableState { selected: None },
                            ..s
                        })
                        &&& match s.dashboard_view_idx {
                            Some(slot) => {
                                &&& exists|v: V| cloned(s.custom_views@[idx as int], v)
                                    && fin.dashboard_views@ == compacted(s.dashboard_views@.update(slot as int, Some(v)))
                                &&& effects == seq![Effect::SaveViewList]
                            },
                            None => fin.dashboard_views == s.dashboard_views && effects == Seq::<Effect>::empty(),
                        }
                    },
                    None => fin == s && effects == Seq::<Effect>::empty(),
                }
            }
        },
    }
}

/// The indexing of confirming stays in bounds: a chosen custom view and a
/// chosen slot exist.
pub open spec fn confirm_ok<V>(s: AppState<V>) -> bool {
    s.route == Route::DashboardViewDisplay && !s.dashboard_view_list_selected ==> (s.selected_custom_view_idx matches Some(idx)
        ==> idx < s.custom_views@.len() && (s.dashboard_view_idx matches Some(slot) ==> slot < s.dashboard_views@.len()))
}

/// Whether confirming may run in state `s` (see `confirm_ok`).
pub fn can_confirm<V>(s: &AppState<V>) -> (r: bool)
    ensures
        r == confirm_ok(*s),
{
    if s.route == Route::DashboardViewDisplay && !s.dashboard_view_list_selected {
        match s.selected_custom_view_idx {
            Some(idx) => idx < s.custom_views.len() && match s.dashboard_view_idx {
                Some(slot) => slot < s.dashboard_views.len(),
                None => true,
            },
            None => true,
        }
    } else {
        true
    }
}

fn place_custom_view<V: Clone>(state: &mut AppState<V>, idx: usize, slot: usize)
    requires
        idx < old(state).custom_views@.len(),
        slot < old(state).dashboard_views@.len(),
    ensures
        *final(state) == (AppState { dashboard_views: final(state).dashboard_views, ..*old(state) }),
        exists|v: V| cloned(old(state).custom_views@[idx as int], v) && final(state).dashboard_views@
            == compacted(old(state).dashboard_views@.update(slot as int, Some(v))),
{
    let selected_view = state.custom_views[idx].clone();
    let ghost v = selected_view;
    let mut list: Vec<Option<V>> = Vec::new();
    std::mem::swap(&mut list, &mut state.dashboard_views);
    list.set(slot, Some(selected_view));
    state.dashboard_views = compact_view_list(list);
    assert(cloned(old(state).custom_views@[idx as int], v));
}

pub fn exec_confirm_cmd<V: Clone>(state: &mut AppState<V>) -> (r: Vec<Effect>)
    requires
        confirm_ok(*old(state)),
    ensures
        confirm_spec(*old(state), *final(state), r@),
{
    let mut effects: Vec<Effect> = Vec::new();
    match state.route {
        Route::ConfigInterface => {
            if state.token_valid {
                return change_route(state, Route::ActionSelect);
            }
        },
        Route::ActionSelect => {
            if state.modifying_issue && state.issue_op.is_valid_selection_for_update(state.title_entry.input.input.as_str()) {
                effects.push(Effect::Dispatch(AppEvent::UpdateIssue));
                state.modifying_issue = false;
                assert(effects@ =~= seq![Effect::Dispatch(AppEvent::UpdateIssue)]);
            } else if let Some(i) = state.actions.selected() {
                if state.team_tz_load_done && i == 0 {
                    return change_route(state, Route::DashboardViewDisplay);
                }
            }
        },
        Route::DashboardViewDisplay => {
            if state.dashboard_view_list_selected {
                if state.dashboard_view_idx.is_some() {
                    exec_select_custom_view_select_cmd(state);
                }
            } else if let Some(idx) = state.selected_custom_view_idx {
                if let Some(slot) = state.dashboard_view_idx {
                    place_custom_view(state, idx, slot);
                    effects.push(Effect::SaveViewList);
                    assert(effects@ =~= seq![Effect::SaveViewList]);
                }
                exec_select_dashboard_view_list_cmd(state);
            }
        },
    }
    effects
}

/// Confirming a custom view into a slot of the dashboard's view list places
/// that very view there: the list becomes the old one with the slot holding
/// the chosen view, compacted, and it is saved.
pub proof fn lemma_confirm_places_chosen_view(s: AppState<CustomView>, fin: AppState<CustomView>, effects: Seq<Effect>)
    requires
        confirm_spec(s, fin, effects),
        s.route == Route::DashboardViewDisplay,
        !s.dashboard_view_list_selected,
        s.selected_custom_view_idx is Some,
        s.dashboard_view_idx is Some,
    ensures
        fin.dashboard_views@ == compacted(s.dashboard_views@.update(
            s.dashboard_view_idx->0 as int,
            Some(s.custom_views@[s.selected_custom_view_idx->0 as int]),
        )),
        effects == seq![Effect::SaveViewList],
{
    let idx = s.selected_custom_view_idx->0;
    let slot = s.dashboard_view_idx->0;
    let v = choose|v: CustomView| cloned(s.custom_views@[idx as int], v)
        && fin.dashboard_views@ == compacted(s.dashboard_views@.update(slot as int, Some(v)));
    assert(v == s.custom_views@[idx as int]);
}

/// Deleting on the view list screen empties the chosen slot, when it holds
/// a view, and compacts the list; the removed view is returned.
pub open spec fn delete_spec<V>(s: AppState<V>, fin: AppState<V>, r: Option<V>) -> bool {
    if s.route == Route::DashboardViewDisplay && s.dashboard_view_idx is Some
        && s.dashboard_views@[s.dashboard_view_idx->0 as int] is Some {
        let idx = s.dashboard_view_idx->0;
        &&& r == s.dashboard_views@[idx as int]
        &&& fin.dashboard_views@ == compacted(s.dashboard_views@.update(idx as int, None))
        &&& fin == (AppState { dashboard_views: fin.dashboard_views, ..s })
    } else {
        fin == s && r is None
    }
}

/// Empties the chosen slot of the view list and compacts it (see
/// `delete_spec`).
pub fn clear_view_slot<V>(state: &mut AppState<V>) -> (r: Option<V>)
    requires
        old(state).route == Route::DashboardViewDisplay ==> (old(state).dashboard_view_idx matches Some(i)
            ==> i < old(state).dashboard_views@.len()),
    ensures
        delete_spec(*old(state), *final(state), r),
{
    if state.route != Route::DashboardViewDisplay {
        return None;
    }
    let view_idx = match state.dashboard_view_idx {
        Some(i) => i,
        None => return None,
    };
    if state.dashboard_views[view_idx].is_none() {
        return None;
    }
    let mut list: Vec<Option<V>> = Vec::new();
    std::mem::swap(&mut list, &mut state.dashboard_views);
    let removed = list.remove(view_idx);
    list.insert(view_idx, None);
    assert(list@ =~= old(state).dashboard_views@.update(view_idx as int, None));
    state.dashboard_views = compact_view_list(list);
    removed
}

/// Deleting on the view list screen: the chosen slot, when it holds a view,
/// is emptied and the list compacted (see `delete_spec`), and the first view
/// panel showing the deleted view is removed.  The deleted view is returned
/// so that the list can be saved.
pub fn exec_delete_cmd(state: &mut AppState<CustomView>) -> (r: Option<CustomView>)
    requires
        old(state).route == Route::DashboardViewDisplay ==> (old(state).dashboard_view_idx matches Some(i)
            ==> i < old(state).dashboard_views@.len()),
    ensures
        delete_spec(*old(state), AppState { view_panels: old(state).view_panels, ..*final(state) }, r),
        final(state).view_panels@ == match r {
            Some(v) => panels_without_view(old(state).view_panels@, v.id@),
            None => old(state).view_panels@,
        },
{
    let removed = clear_view_slot(state);
    match &removed {
        Some(v) => {
            let panel_ids = panel_ids_of(&state.view_panels);
            match position_of_view(&panel_ids, &v.id) {
                Some(p) => {
                    remove_view_panel(state, p);
                },
                None => {},
            }
        },
        None => {},
    }
    removed
}

/// Removes the view panel at position `pos` (counted from 0).
pub fn remove_view_panel<V>(state: &mut AppState<V>, pos: usize) -> (r: DashboardViewPanel<V>)
    requires
        pos < old(state).view_panels@.len(),
    ensures
        r == old(state).view_panels@[pos as int],
        final(state).view_panels@ == old(state).view_panels@.remove(pos as int),
        *final(state) == (AppState { view_panels: final(state).view_panels, ..*old(state) }),
{
    state.view_panels.remove(pos)
}

/// Refreshing the selected view panel, unless it is loading or an issue is
/// expanded: its issues, cursor and loading flag are cleared, the issue
/// selection is reset, and its first page is asked for.
pub open spec fn refresh_spec<V>(s: AppState<V>, fin: AppState<V>, effects: Seq<Effect>) -> bool {
    match s.view_panel_selected {
        Some(p) => {
            let idx = (p - 1) as usize;
            if !s.view_panels@[idx as int].loading && !s.issue_expanded {
                &&& fin.view_panels@.len() == s.view_panels@.len()
                &&& forall|j: int| 0 <= j < s.view_panels@.len() && j != idx ==> #[trigger] fin.view_panels@[j] == s.view_panels@[j]
                &&& fin.view_panels@[idx as int] == (DashboardViewPanel {
                    issues: fin.view_panels@[idx as int].issues,
                    cursor: None,
                    loading: false,
                    ..s.view_panels@[idx as int]
                })
                &&& fin.view_panels@[idx as int].issues@.len() == 0
                &&& fin == (AppState {
                    view_panels: fin.view_panels,
                    view_panel_issue_selected: Some(TableState { selected: None }),
                    view_panel_to_paginate: idx,
                    ..s
                })
                &&& effects == seq![Effect::ResetViewPanel(idx), Effect::Dispatch(AppEvent::PaginateDashboardView)]
            } else {
                fin == s && effects == Seq::<Effect>::empty()
            }
        },
        None => fin == s && effects == Seq::<Effect>::empty(),
    }
}

pub fn exec_refresh_view_panel_cmd<V>(state: &mut AppState<V>) -> (r: Vec<Effect>)
    requires
        old(state).view_panel_selected matches Some(p) ==> 1 <= p <= old(state).view_panels@.len(),
    ensures
        refresh_spec(*old(state), *final(state), r@),
{
    let mut effects: Vec<Effect> = Vec::new();
    if let Some(idx) = fetch_selected_view_panel_idx(state) {
        if !state.view_panels[idx].loading && !state.issue_expanded {
            state.view_panel_issue_selected = Some(TableState::default());
            let mut panel = state.view_panels.remove(idx);
            panel.issues = Vec::new();
            panel.cursor = None;
            panel.loading = false;
            state.view_panels.insert(idx, panel);
            state.view_panel_to_paginate = idx;
            effects.push(Effect::ResetViewPanel(idx));
            effects.push(Effect::Dispatch(AppEvent::PaginateDashboardView));
            assert(effects@ =~= seq![Effect::ResetViewPanel(idx), Effect::Dispatch(AppEvent::PaginateDashboardView)]);
        }
    }
    effects
}


/// Opening the modal of a modification on the action screen: the same
/// modification again closes it (as moving back does); otherwise, unless an
/// issue is expanded, it becomes the open modification and its candidates
/// are asked for; a title edit also fills the editor with the selected
/// issue's title and starts editing, when an issue is selected.
pub open spec fn open_op_spec<V>(s: AppState<V>, op: IssueModificationOp, fin: AppState<V>, effects: Seq<Effect>) -> bool {
    if s.route != Route::ActionSelect {
        fin == s && effects == Seq::<Effect>::empty()
    } else if s.issue_op.current_op == Some(op) {
        move_back_spec(s, fin, effects)
    } else if s.issue_expanded {
        fin == s && effects == Seq::<Effect>::empty()
    } else {
        let s1 = AppState {
            issue_op: LinearIssueOpInterface { current_op: Some(op), ..s.issue_op },
            modifying_issue: true,
            ..s
        };
        &&& effects == seq![Effect::Dispatch(AppEvent::LoadIssueOpData)]
        &&& if op == IssueModificationOp::ModifyTitle && selected_issue(s) is Some {
            let (p, i) = selected_issue(s)->0;
            &&& set_input_result(s.title_entry.input, s.view_panels@[p as int].issues@[i as int].title@, fin.title_entry.input)
            &&& fin == (AppState {
                editor_available: true,
                input_mode: InputMode::Edit,
                title_entry: TitleEntry { input: fin.title_entry.input, ..s.title_entry },
                ..s1
            })
        } else {
            fin == s1
        }
    }
}

pub fn exec_open_issue_op_interface_cmd<V>(state: &mut AppState<V>, op: IssueModificationOp) -> (r: Vec<Effect>)
    requires
        move_back_ok(*old(state)),
        old(state).view_panel_selected matches Some(p) ==> p >= 1,
    ensures
        open_op_spec(*old(state), op, *final(state), r@),
{
    let mut effects: Vec<Effect> = Vec::new();
    if state.route != Route::ActionSelect {
        return effects;
    }
    if state.issue_op.current_op == Some(op) {
        return exec_move_back_cmd(state);
    }
    if state.issue_expanded {
        return effects;
    }
    state.issue_op.current_op = Some(op);
    state.modifying_issue = true;
    if op == IssueModificationOp::ModifyTitle {
        if let Some((p, i)) = fetch_selected_view_panel_issue(state) {
            state.editor_available = true;
            let title = state.view_panels[p].issues[i].title.clone();
            state.title_entry.input.try_set_input(title);
            state.input_mode = InputMode::Edit;
        }
    }
    effects.push(Effect::Dispatch(AppEvent::LoadIssueOpData));
    assert(effects@ =~= seq![Effect::Dispatch(AppEvent::LoadIssueOpData)]);
    effects
}

/// Entering the editor, where one is available, stops the quit key from
/// quitting.
pub fn exec_editor_enter_cmd<V>(state: &mut AppState<V>) -> (r: Vec<Effect>)
    ensures
        old(state).editor_available ==> *final(state) == (AppState { input_mode: InputMode::Edit, ..*old(state) })
            && r@ == seq![Effect::DisableExitKey],
        !old(state).editor_available ==> *final(state) == *old(state) && r@ == Seq::<Effect>::empty(),
{
    let mut effects: Vec<Effect> = Vec::new();
    if state.editor_available {
        effects.push(Effect::DisableExitKey);
        state.input_mode = InputMode::Edit;
        assert(effects@ =~= seq![Effect::DisableExitKey]);
    }
    effects
}

/// The entry box a typed key goes to: the token's on the configuration
/// screen and the title's on the action screen, while editing.
pub open spec fn editing_token<V>(s: AppState<V>) -> bool {
    s.route == Route::ConfigInterface && s.input_mode == InputMode::Edit
}

pub open spec fn editing_title<V>(s: AppState<V>) -> bool {
    s.route == Route::ActionSelect && s.input_mode == InputMode::Edit
}

/// Typing a character into the entry box being edited, at its cursor.
pub fn exec_editor_input_cmd<V>(state: &mut AppState<V>, ch: char)
    requires
        editing_token(*old(state)) ==> insert_allowed(old(state).token_entry.input),
        editing_title(*old(state)) ==> insert_allowed(old(state).title_entry.input),
    ensures
        editing_token(*old(state)) ==> insert_result(old(state).token_entry.input, ch, final(state).token_entry.input)
            && *final(state) == (AppState {
                token_entry: TokenEntry { input: final(state).token_entry.input, ..old(state).token_entry },
                ..*old(state)
            }),
        editing_title(*old(state)) ==> insert_result(old(state).title_entry.input, ch, final(state).title_entry.input)
            && *final(state) == (AppState {
                title_entry: TitleEntry { input: final(state).title_entry.input, ..old(state).title_entry },
                ..*old(state)
            }),
        !editing_token(*old(state)) && !editing_title(*old(state)) ==> *final(state) == *old(state),
{
    if state.input_mode == InputMode::Edit {
        match state.route {
            Route::ConfigInterface => {
                state.token_entry.input.insert(ch);
            },
            Route::ActionSelect => {
                state.title_entry.input.insert(ch);
            },
            _ => {},
        }
    }
}

/// Moving the cursor of the entry box being edited forward.
pub fn exec_editor_move_forward_cmd<V>(state: &mut AppState<V>)
    ensures
        editing_token(*old(state)) ==> forward_result(old(state).token_entry.input, final(state).token_entry.input)
            && *final(state) == (AppState {
                token_entry: TokenEntry { input: final(state).token_entry.input, ..old(state).token_entry },
                ..*old(state)
            }),
        editing_title(*old(state)) ==> forward_result(old(state).title_entry.input, final(state).title_entry.input)
            && *final(state) == (AppState {
                title_entry: TitleEntry { input: final(state).title_entry.input, ..old(state).title_entry },
                ..*old(state)
            }),
        !editing_token(*old(state)) && !editing_title(*old(state)) ==> *final(state) == *old(state),
{
    if state.input_mode == InputMode::Edit {
        match state.route {
            Route::ConfigInterface => {
                if state.token_entry.input.cursor_offset < usize::MAX {
                    state.token_entry.input.move_cursor_forwards();
                }
            },
            Route::ActionSelect => {
                if state.title_entry.input.cursor_offset < usize::MAX {
                    state.title_entry.input.move_cursor_forwards();
                }
            },
            _ => {},
        }
    }
}

/// Moving the cursor of the entry box being edited back.
pub fn exec_editor_move_back_cmd<V>(state: &mut AppState<V>)
    ensures
        editing_token(*old(state)) ==> back_result(old(state).token_entry.input, final(state).token_entry.input)
            && *final(state) == (AppState {
                token_entry: TokenEntry { input: final(state).token_entry.input, ..old(state).token_entry },
                ..*old(state)
            }),
        editing_title(*old(state)) ==> back_result(old(state).title_entry.input, final(state).title_entry.input)
            && *final(state) == (AppState {
                title_entry: TitleEntry { input: final(state).title_entry.input, ..old(state).title_entry },
                ..*old(state)
            }),
        !editing_token(*old(state)) && !editing_title(*old(state)) ==> *final(state) == *old(state),
{
    if state.input_mode == InputMode::Edit {
        match state.route {
            Route::ConfigInterface => {
                state.token_entry.input.move_cursor_back();
            },
            Route::ActionSelect => {
                state.title_entry.input.move_cursor_back();
            },
            _ => {},
        }
    }
}

/// Deleting before the cursor of the entry box being edited (a cursor that
/// does not stand at a grapheme boundary leaves the text as it is).
pub fn exec_editor_delete_cmd<V>(state: &mut AppState<V>)
    requires
        editing_token(*old(state)) ==> delete_allowed(old(state).token_entry.input),
        editing_title(*old(state)) ==> delete_allowed(old(state).title_entry.input),
    ensures
        editing_token(*old(state)) ==> delete_result(old(state).token_entry.input, final(state).token_entry.input)
            && *final(state) == (AppState {
                token_entry: TokenEntry { input: final(state).token_entry.input, ..old(state).token_entry },
                ..*old(state)
            }),
        editing_title(*old(state)) ==> delete_result(old(state).title_entry.input, final(state).title_entry.input)
            && *final(state) == (AppState {
                title_entry: TitleEntry { input: final(state).title_entry.input, ..old(state).title_entry },
                ..*old(state)
            }),
        !editing_token(*old(state)) && !editing_title(*old(state)) ==> *final(state) == *old(state),
{
    if state.input_mode == InputMode::Edit {
        match state.route {
            Route::ConfigInterface => {
                state.token_entry.input.delete();
            },
            Route::ActionSelect => {
                state.title_entry.input.delete();
            },
            _ => {},
        }
    }
}

/// Submitting the edited text ends editing.  On the configuration screen a
/// token of the right length starts validation (and the viewer is loaded
/// with it), any other token is marked invalid.  On the action screen a
/// ready modification is sent; otherwise the title is marked invalid.
pub open spec fn submit_spec<V>(s: AppState<V>, fin: AppState<V>, effects: Seq<Effect>) -> bool {
    let s1 = AppState { input_mode: InputMode::Normal, ..s };
    match s.route {
        Route::ConfigInterface => if token_len_ok(s.token_entry.input.input@) {
            fin == (AppState {
                token_entry: TokenEntry { token_validation_state: TokenValidationState::Validating, ..s.token_entry },
                ..s1
            }) && effects == seq![Effect::EnableExitKey, Effect::Dispatch(AppEvent::LoadViewer)]
        } else {
            fin == (AppState {
                token_entry: TokenEntry { token_validation_state: TokenValidationState::Invalid, ..s.token_entry },
                ..s1
            }) && effects == seq![Effect::EnableExitKey]
        },
        Route::ActionSelect => if !s.modifying_issue {
            fin == s1 && effects == seq![Effect::EnableExitKey]
        } else if valid_selection(s.issue_op.current_op, s.issue_op.selected_idx, s.title_entry.input.input@) {
            fin == (AppState { modifying_issue: false, ..s1 }) && effects == seq![
                Effect::EnableExitKey,
                Effect::Dispatch(AppEvent::UpdateIssue),
            ]
        } else {
            fin == (AppState {
                title_entry: TitleEntry { title_validation_state: TitleValidationState::Invalid, ..s.title_entry },
                ..s1
            }) && effects == seq![Effect::EnableExitKey]
        },
        Route::DashboardViewDisplay => fin == s1 && effects == seq![Effect::EnableExitKey],
    }
}

pub fn exec_editor_submit_cmd<V>(state: &mut AppState<V>) -> (r: Vec<Effect>)
    ensures
        submit_spec(*old(state), *final(state), r@),
{
    let mut effects: Vec<Effect> = Vec::new();
    effects.push(Effect::EnableExitKey);
    state.input_mode = InputMode::Normal;
    match state.route {
        Route::ConfigInterface => {
            if is_token_len_valid(state.token_entry.input.input.as_str()) {
                state.token_entry.token_validation_state = TokenValidationState::Validating;
                effects.push(Effect::Dispatch(AppEvent::LoadViewer));
                assert(effects@ =~= seq![Effect::EnableExitKey, Effect::Dispatch(AppEvent::LoadViewer)]);
            } else {
                state.token_entry.token_validation_state = TokenValidationState::Invalid;
            }
        },
        Route::ActionSelect => {
            if state.modifying_issue {
                if state.issue_op.is_valid_selection_for_update(state.title_entry.input.input.as_str()) {
                    effects.push(Effect::Dispatch(AppEvent::UpdateIssue));
                    state.modifying_issue = false;
                    assert(effects@ =~= seq![Effect::EnableExitKey, Effect::Dispatch(AppEvent::UpdateIssue)]);
                } else {
                    state.title_entry.title_validation_state = TitleValidationState::Invalid;
                }
            }
        },
        _ => {},
    }
    assert(effects@.len() == 1 ==> effects@ =~= seq![Effect::EnableExitKey]);
    effects
}

/// Leaving the editor resumes the quit key; an open modification is closed
/// and the editor made unavailable.
pub open spec fn exit_spec<V>(s: AppState<V>, fin: AppState<V>, effects: Seq<Effect>) -> bool {
    &&& effects == seq![Effect::EnableExitKey]
    &&& if s.modifying_issue {
        &&& reset_post(s.issue_op, fin.issue_op)
        &&& fin == (AppState {
            input_mode: InputMode::Normal,
            editor_available: false,
            modifying_issue: false,
            issue_op: fin.issue_op,
            ..s
        })
    } else {
        fin == (AppState { input_mode: InputMode::Normal, ..s })
    }
}

pub fn exec_editor_exit_cmd<V>(state: &mut AppState<V>) -> (r: Vec<Effect>)
    requires
        old(state).modifying_issue ==> resettable(old(state).issue_op.current_op),
    ensures
        exit_spec(*old(state), *final(state), r@),
{
    let mut effects: Vec<Effect> = Vec::new();
    effects.push(Effect::EnableExitKey);
    state.input_mode = InputMode::Normal;
    if state.modifying_issue {
        state.editor_available = false;
        state.modifying_issue = false;
        state.issue_op.reset_op();
    }
    assert(effects@ =~= seq![Effect::EnableExitKey]);
    effects
}

} // verus!
