use rust_cli::command::{action_bar_flags, can_confirm, can_move_back, can_scroll, can_scroll_up, remove_view_active};
use rust_cli::constants::command_list::CommandList;
use rust_cli::app::{AppEvent, InputMode, Platform, Route};
use rust_cli::command::{
    change_route, clear_view_slot, compact_view_list, exec_confirm_cmd, exec_editor_delete_cmd,
    exec_editor_enter_cmd, exec_editor_input_cmd, exec_editor_submit_cmd, exec_expand_issue_cmd,
    exec_move_back_cmd, exec_open_issue_op_interface_cmd, exec_refresh_view_panel_cmd,
    exec_scroll_down_cmd, exec_scroll_up_cmd, exec_select_view_panel_cmd, fetch_selected_value,
    fetch_selected_view_panel_idx, fetch_selected_view_panel_issue, fetch_selected_view_panel_num, get_cmd,
    remove_view_panel, AppState, Command, Effect, Key, VIEW_SLOTS,
};
use rust_cli::components::dashboard_view_panel::DashboardViewPanel;
use rust_cli::constants::IssueModificationOp;
use rust_cli::linear::types::{Cycle, Issue, IssueRelatableObject, Team, WorkflowState};
use rust_cli::util::cursor::GraphQLCursor;

fn state(name: &str) -> WorkflowState {
    WorkflowState {
        id: format!("state-{}", name),
        name: String::from(name),
        state_type: String::from("started"),
        color: String::from("#00ff00"),
        description: None,
    }
}

fn issue(id: &str, title: &str) -> Issue {
    Issue {
        id: String::from(id),
        created_at: String::from("2023-01-01"),
        number: 1,
        due_date: None,
        title: String::from(title),
        description: None,
        priority: 0,
        estimate: None,
        team: Team { id: String::from("team-1"), name: None, key: None, description: None },
        state: state("Todo"),
        creator: None,
        assignee: None,
        labels: Vec::new(),
        cycle: Cycle::default(),
        project: None,
        subscribers: Vec::new(),
    }
}

fn panel(view: &str, issues: Vec<Issue>) -> DashboardViewPanel<String> {
    DashboardViewPanel { view: String::from(view), issues, cursor: None, loading: false }
}

fn dashboard_state() -> AppState<String> {
    let mut s: AppState<String> = AppState::default();
    s.route = Route::ActionSelect;
    s.view_panels = vec![
        panel("v1", vec![issue("i1", "First"), issue("i2", "Second")]),
        panel("v2", Vec::new()),
    ];
    s
}

#[test]
fn keys_in_normal_mode_build_command_text() {
    let mut cmd = String::new();
    assert_eq!(get_cmd(&mut cmd, Key::Char('q'), &Route::ActionSelect, &InputMode::Normal), Some(Command::Quit));
    assert_eq!(cmd, "q");
    let mut cmd = String::new();
    assert_eq!(
        get_cmd(&mut cmd, Key::Char('1'), &Route::ActionSelect, &InputMode::Normal),
        Some(Command::SelectViewPanel(1))
    );
    let mut cmd = String::new();
    assert_eq!(
        get_cmd(&mut cmd, Key::Char('1'), &Route::DashboardViewDisplay, &InputMode::Normal),
        Some(Command::SelectDashboardViewList)
    );
    let mut cmd = String::new();
    assert_eq!(
        get_cmd(&mut cmd, Key::Char('2'), &Route::DashboardViewDisplay, &InputMode::Normal),
        Some(Command::SelectCustomViewSelect)
    );
    let mut cmd = String::new();
    assert_eq!(
        get_cmd(&mut cmd, Key::Char('w'), &Route::ActionSelect, &InputMode::Normal),
        Some(Command::OpenIssueOpInterface(IssueModificationOp::ModifyWorkflowState))
    );
    let mut cmd = String::from("q");
    assert_eq!(get_cmd(&mut cmd, Key::Char('q'), &Route::ActionSelect, &InputMode::Normal), None);
    assert_eq!(cmd, "qq");
    let mut cmd = String::new();
    assert_eq!(get_cmd(&mut cmd, Key::Char('x'), &Route::ActionSelect, &InputMode::Normal), None);
}

#[test]
fn arrow_keys_in_normal_mode() {
    let mut cmd = String::new();
    assert_eq!(get_cmd(&mut cmd, Key::Down, &Route::ActionSelect, &InputMode::Normal), Some(Command::ScrollDown));
    assert_eq!(get_cmd(&mut cmd, Key::Up, &Route::ActionSelect, &InputMode::Normal), Some(Command::ScrollUp));
    assert_eq!(get_cmd(&mut cmd, Key::Left, &Route::ActionSelect, &InputMode::Normal), Some(Command::MoveBack));
    assert_eq!(get_cmd(&mut cmd, Key::Right, &Route::ActionSelect, &InputMode::Normal), Some(Command::Confirm));
    assert_eq!(get_cmd(&mut cmd, Key::Enter, &Route::ActionSelect, &InputMode::Normal), None);
    assert_eq!(cmd, "");
}

#[test]
fn keys_in_edit_mode_edit_text() {
    let mut cmd = String::new();
    let e = InputMode::Edit;
    assert_eq!(get_cmd(&mut cmd, Key::Char('q'), &Route::ConfigInterface, &e), Some(Command::EditorInput('q')));
    assert_eq!(get_cmd(&mut cmd, Key::Char('\n'), &Route::ConfigInterface, &e), Some(Command::EditorSubmit));
    assert_eq!(get_cmd(&mut cmd, Key::Enter, &Route::ConfigInterface, &e), Some(Command::EditorSubmit));
    assert_eq!(get_cmd(&mut cmd, Key::Backspace, &Route::ConfigInterface, &e), Some(Command::EditorDelete));
    assert_eq!(get_cmd(&mut cmd, Key::Left, &Route::ConfigInterface, &e), Some(Command::EditorMoveBackward));
    assert_eq!(get_cmd(&mut cmd, Key::Right, &Route::ConfigInterface, &e), Some(Command::EditorMoveForward));
    assert_eq!(get_cmd(&mut cmd, Key::Esc, &Route::ConfigInterface, &e), Some(Command::EditorExit));
    assert_eq!(get_cmd(&mut cmd, Key::Up, &Route::ConfigInterface, &e), None);
    assert_eq!(cmd, "");
}

#[test]
fn view_list_is_compacted_and_padded() {
    let list = vec![None, Some(1), None, Some(2)];
    assert_eq!(compact_view_list(list), vec![Some(1), Some(2), None, None, None, None]);
    let full: Vec<Option<u8>> = (0..7).map(Some).collect();
    assert_eq!(compact_view_list(full.clone()), full);
    let empty: Vec<Option<u8>> = Vec::new();
    assert_eq!(compact_view_list(empty).len(), VIEW_SLOTS);
}

#[test]
fn compacting_twice_changes_nothing() {
    let once = compact_view_list(vec![Some(3), None, Some(4), None, None, Some(5), None]);
    let twice = compact_view_list(once.clone());
    assert_eq!(once, twice);
    assert_eq!(once, vec![Some(3), Some(4), Some(5), None, None, None]);
}

#[test]
fn default_state_starts_on_configuration_screen() {
    let s: AppState<String> = AppState::default();
    assert_eq!(s.route, Route::ConfigInterface);
    assert_eq!(s.input_mode, InputMode::Normal);
    assert_eq!(s.dashboard_views, vec![None; VIEW_SLOTS]);
    assert!(s.token_entry.input.is_secret);
    assert_eq!(s.token_entry.input.cursor_offset, 1);
    assert!(s.view_panels.is_empty());
}

#[test]
fn routes_prepare_their_screens() {
    let mut s: AppState<String> = AppState::default();
    let effects = change_route(&mut s, Route::ActionSelect);
    assert_eq!(effects, vec![Effect::ReadCachedViewList, Effect::Dispatch(AppEvent::LoadDashboardViews)]);
    assert_eq!(s.route, Route::ActionSelect);
    assert_eq!(s.actions.selected(), Some(0));
    s.view_list_cache_read_attempted = true;
    assert_eq!(change_route(&mut s, Route::ActionSelect), vec![Effect::Dispatch(AppEvent::LoadDashboardViews)]);
    let effects = change_route(&mut s, Route::DashboardViewDisplay);
    assert_eq!(effects, vec![Effect::Dispatch(AppEvent::LoadCustomViews)]);
    assert!(s.dashboard_view_list_selected);
    assert_eq!(s.actions.selected(), None);
    assert!(change_route(&mut s, Route::ConfigInterface).is_empty());
    assert_eq!(s.input_mode, InputMode::Edit);
}

#[test]
fn selecting_a_view_panel_selects_its_first_issue() {
    let mut s = dashboard_state();
    let effects = exec_select_view_panel_cmd(&mut s, 1);
    assert!(effects.is_empty());
    assert_eq!(fetch_selected_view_panel_num(&s), Some(1));
    assert_eq!(fetch_selected_view_panel_idx(&s), Some(0));
    assert_eq!(fetch_selected_view_panel_issue(&s), Some((0, 0)));
    // A panel that does not exist is not selected.
    exec_select_view_panel_cmd(&mut s, 5);
    assert_eq!(fetch_selected_view_panel_num(&s), Some(1));
}

#[test]
fn scrolling_moves_through_panel_issues() {
    let mut s = dashboard_state();
    exec_select_view_panel_cmd(&mut s, 1);
    exec_scroll_down_cmd(&mut s);
    assert_eq!(fetch_selected_view_panel_issue(&s), Some((0, 1)));
    exec_scroll_up_cmd(&mut s);
    assert_eq!(fetch_selected_view_panel_issue(&s), Some((0, 0)));
}

#[test]
fn expanding_and_moving_back() {
    let mut s = dashboard_state();
    exec_select_view_panel_cmd(&mut s, 1);
    assert_eq!(exec_expand_issue_cmd(&mut s), Some((0, 0)));
    assert!(s.issue_expanded);
    exec_move_back_cmd(&mut s);
    assert!(!s.issue_expanded);
    exec_move_back_cmd(&mut s);
    assert_eq!(fetch_selected_view_panel_num(&s), None);
}

#[test]
fn refreshing_clears_the_panel_and_asks_for_a_page() {
    let mut s = dashboard_state();
    exec_select_view_panel_cmd(&mut s, 1);
    let effects = exec_refresh_view_panel_cmd(&mut s);
    assert_eq!(effects, vec![Effect::ResetViewPanel(0), Effect::Dispatch(AppEvent::PaginateDashboardView)]);
    assert!(s.view_panels[0].issues.is_empty());
    assert_eq!(s.view_panels[0].view, "v1");
    assert_eq!(s.view_panel_to_paginate, 0);
    // A loading panel is left alone.
    s.view_panels[0].loading = true;
    assert!(exec_refresh_view_panel_cmd(&mut s).is_empty());
}

#[test]
fn title_modification_starts_from_the_issue_title() {
    let mut s = dashboard_state();
    exec_select_view_panel_cmd(&mut s, 1);
    exec_open_issue_op_interface_cmd(&mut s, IssueModificationOp::ModifyTitle);
    assert!(s.modifying_issue);
    assert_eq!(s.title_entry.input.input, "First");
    assert_eq!(s.input_mode, InputMode::Edit);
}

#[test]
fn workflow_state_modification_loads_candidates() {
    let mut s = dashboard_state();
    exec_select_view_panel_cmd(&mut s, 1);
    let effects = exec_open_issue_op_interface_cmd(&mut s, IssueModificationOp::ModifyWorkflowState);
    assert_eq!(effects, vec![Effect::Dispatch(AppEvent::LoadIssueOpData)]);
    assert_eq!(s.issue_op.current_op, Some(IssueModificationOp::ModifyWorkflowState));
}

#[test]
fn selected_candidate_of_the_modal() {
    let mut s = dashboard_state();
    s.issue_op.current_op = Some(IssueModificationOp::ModifyWorkflowState);
    s.issue_op.obj_data.workflow_states = vec![state("Todo"), state("Done")];
    assert!(fetch_selected_value(&s).is_none());
    s.issue_op.selected_idx = Some(1);
    match fetch_selected_value(&s) {
        Some(IssueRelatableObject::WorkflowState(w)) => assert_eq!(w.name, "Done"),
        _ => panic!("expected a workflow state"),
    }
    s.issue_op.selected_idx = Some(2);
    assert!(fetch_selected_value(&s).is_none());
}

#[test]
fn editor_commands_edit_the_token() {
    let mut s: AppState<String> = AppState::default();
    change_route(&mut s, Route::ConfigInterface);
    exec_editor_enter_cmd(&mut s);
    exec_editor_input_cmd(&mut s, 'a');
    exec_editor_input_cmd(&mut s, 'b');
    assert_eq!(s.token_entry.input.input, "ab");
    exec_editor_delete_cmd(&mut s);
    assert_eq!(s.token_entry.input.input, "a");
    // A token of the wrong length is refused.
    exec_editor_submit_cmd(&mut s);
    assert!(!s.token_valid);
}

#[test]
fn deleting_a_slot_compacts_the_view_list() {
    let mut s: AppState<String> = AppState::default();
    s.route = Route::DashboardViewDisplay;
    s.dashboard_views = vec![Some(String::from("a")), Some(String::from("b")), None, None, None, None];
    s.dashboard_view_idx = Some(0);
    assert_eq!(clear_view_slot(&mut s), Some(String::from("a")));
    assert_eq!(s.dashboard_views, vec![Some(String::from("b")), None, None, None, None, None]);
    // An empty slot deletes nothing.
    s.dashboard_view_idx = Some(3);
    assert_eq!(clear_view_slot(&mut s), None);
}

#[test]
fn confirming_places_a_custom_view_in_a_slot() {
    let mut s: AppState<String> = AppState::default();
    s.route = Route::DashboardViewDisplay;
    s.custom_views = vec![String::from("x"), String::from("y")];
    s.dashboard_view_idx = Some(2);
    exec_confirm_cmd(&mut s);
    assert!(!s.dashboard_view_list_selected);
    assert_eq!(s.selected_custom_view_idx, Some(0));
    s.selected_custom_view_idx = Some(1);
    let effects = exec_confirm_cmd(&mut s);
    assert_eq!(effects, vec![Effect::SaveViewList]);
    assert_eq!(s.dashboard_views[0], Some(String::from("y")));
    assert!(s.dashboard_view_list_selected);
}

#[test]
fn removing_a_view_panel() {
    let mut s = dashboard_state();
    let removed = remove_view_panel(&mut s, 0);
    assert_eq!(removed.view, "v1");
    assert_eq!(s.view_panels.len(), 1);
    assert_eq!(s.view_panels[0].view, "v2");
}

#[test]
fn scrolling_past_the_last_loaded_issue_asks_for_a_page() {
    let mut s = dashboard_state();
    s.view_panels[0].cursor =
        Some(GraphQLCursor { platform: Platform::Linear, has_next_page: true, end_cursor: Some(String::from("c")) });
    exec_select_view_panel_cmd(&mut s, 1);
    exec_scroll_down_cmd(&mut s);
    let effects = exec_scroll_down_cmd(&mut s);
    assert_eq!(effects, vec![Effect::Dispatch(AppEvent::PaginateDashboardView)]);
    assert_eq!(s.view_panel_to_paginate, 0);
    assert_eq!(fetch_selected_view_panel_issue(&s), Some((0, 1)));
}

#[test]
fn command_preconditions_can_be_checked() {
    let mut s = dashboard_state();
    assert!(can_scroll(&s));
    assert!(can_scroll_up(&s));
    assert!(can_move_back(&s));
    assert!(can_confirm(&s));
    s.view_panel_selected = Some(7);
    assert!(!can_scroll(&s));
    s.view_panel_selected = Some(1);
    s.modifying_issue = true;
    s.issue_op.current_op = Some(IssueModificationOp::ModifyLabels);
    assert!(!can_move_back(&s));
    s.issue_op.current_op = Some(IssueModificationOp::ModifyAssignee);
    assert!(can_move_back(&s));
    s.issue_op.data_state.selected = Some(0);
    assert!(!can_scroll_up(&s));
    let mut d: AppState<String> = AppState::default();
    d.route = Route::DashboardViewDisplay;
    d.dashboard_view_list_selected = false;
    d.selected_custom_view_idx = Some(0);
    assert!(!can_confirm(&d));
}

#[test]
fn listed_keys_run_their_commands() {
    let list = CommandList::default();
    let expected = [
        Command::RefreshViewPanel,
        Command::OpenIssueOpInterface(IssueModificationOp::ModifyWorkflowState),
        Command::OpenIssueOpInterface(IssueModificationOp::ModifyAssignee),
        Command::OpenIssueOpInterface(IssueModificationOp::ModifyProject),
        Command::OpenIssueOpInterface(IssueModificationOp::ModifyCycle),
    ];
    for (entry, cmd) in list.dashboard.iter().zip(expected.iter()) {
        let mut text = String::new();
        assert_eq!(get_cmd(&mut text, Key::Char(entry.key_char), &Route::ActionSelect, &InputMode::Normal), Some(*cmd));
    }
    let mut text = String::new();
    assert_eq!(
        get_cmd(&mut text, Key::Char(list.view_list[0].key_char), &Route::DashboardViewDisplay, &InputMode::Normal),
        Some(Command::Delete)
    );
}

#[test]
fn command_bar_activity() {
    let mut s = dashboard_state();
    assert_eq!(action_bar_flags(&s), (false, false));
    exec_select_view_panel_cmd(&mut s, 1);
    assert_eq!(action_bar_flags(&s), (true, true));
    // The second panel holds no issue to modify.
    exec_select_view_panel_cmd(&mut s, 2);
    assert_eq!(action_bar_flags(&s), (true, false));
    exec_select_view_panel_cmd(&mut s, 1);
    s.issue_expanded = true;
    assert_eq!(action_bar_flags(&s), (false, false));
    s.issue_expanded = false;
    s.view_panels[0].loading = true;
    assert_eq!(action_bar_flags(&s), (false, true));

    let mut v: AppState<String> = AppState::default();
    v.dashboard_views = vec![Some(String::from("v1")), None];
    assert!(!remove_view_active(&v));
    v.dashboard_view_idx = Some(0);
    assert!(remove_view_active(&v));
    v.dashboard_view_idx = Some(1);
    assert!(!remove_view_active(&v));
    v.dashboard_view_idx = Some(5);
    assert!(!remove_view_active(&v));
}
