use rust_cli::dispatch::page_variables;
use rust_cli::util::cursor::GraphQLCursor;
use rust_cli::dashboard::position_of_view;
use rust_cli::app::{Platform, Route};
use rust_cli::command::{exec_select_view_panel_cmd, AppState};
use rust_cli::components::dashboard_view_panel::DashboardViewPanel;
use rust_cli::dashboard::follow_view_list;
use rust_cli::command::{exec_confirm_cmd, exec_delete_cmd};
use rust_cli::linear::timezone_manager::receive_team_timezones;
use rust_cli::linear::types::viewer_label;
use rust_cli::linear::view_resolver::receive_view_page;
use rust_cli::util::cursor::is_exhausted;
use rust_cli::linear::types::CustomView;
use rust_cli::constants::IssueModificationOp;
use rust_cli::dashboard::{apply_panel_plan, plan_dashboard_panels, PanelOp, PanelSource};
use rust_cli::dispatch::{
    apply_issue_change, apply_issue_change_to_panels, begin_custom_views_load, begin_issue_op_load,
    begin_panel_page_load, plan_issue_update, receive_custom_views_page, receive_issue_op_page,
    receive_panel_page, start_panel_load, update_field, IssueChange, IssueOpPage, IssueOpRequestKind, PageInfo,
    UpdateField,
};
use rust_cli::linear::types::{Cycle, Issue, Team, User, WorkflowState};

fn wstate(name: &str) -> WorkflowState {
    WorkflowState {
        id: format!("state-{}", name),
        name: String::from(name),
        state_type: String::from("unstarted"),
        color: String::from("#aaaaaa"),
        description: None,
    }
}

fn issue(id: &str, title: &str) -> Issue {
    Issue {
        id: String::from(id),
        created_at: String::from("2023-01-01"),
        number: 7,
        due_date: None,
        title: String::from(title),
        description: None,
        priority: 0,
        estimate: None,
        team: Team { id: String::from("team-9"), name: None, key: None, description: None },
        state: wstate("Todo"),
        creator: None,
        assignee: None,
        labels: Vec::new(),
        cycle: Cycle::default(),
        project: None,
        subscribers: Vec::new(),
    }
}

fn panel(view: &str, issues: Vec<Issue>) -> DashboardViewPanel<String> {
    DashboardViewPanel { view: String::from(view), issues, cursor: None, loading: false }
}

fn page(has_next_page: bool, end: &str) -> PageInfo {
    PageInfo { has_next_page, end_cursor: Some(String::from(end)) }
}

fn ids(v: &[&str]) -> Vec<String> {
    v.iter().map(|s| String::from(*s)).collect()
}

fn slots(v: &[Option<&str>]) -> Vec<Option<String>> {
    v.iter().map(|s| s.map(String::from)).collect()
}

#[test]
fn plan_for_an_empty_dashboard_makes_new_panels() {
    let plan = plan_dashboard_panels(&slots(&[Some("a"), Some("b"), None]), &Vec::new()).unwrap();
    assert_eq!(
        plan.ops,
        vec![PanelOp::Insert(0, PanelSource::NewFor(0)), PanelOp::Insert(1, PanelSource::NewFor(1))]
    );
    assert!(plan.reused.is_empty());
    assert_eq!(plan.to_load, vec![0, 1]);
}

#[test]
fn plan_reuses_panels_already_showing_a_view() {
    // Panels show b, a; the view list asks for a, b, c.
    let plan = plan_dashboard_panels(&slots(&[Some("a"), Some("b"), Some("c")]), &ids(&["b", "a"])).unwrap();
    // a's panel is copied to the front; that overwrites b's panel, so b
    // gets a new one, and c a new one at the end.
    assert_eq!(
        plan.ops,
        vec![
            PanelOp::Replace(0, PanelSource::CopyOf(1)),
            PanelOp::Replace(1, PanelSource::NewFor(1)),
            PanelOp::Insert(2, PanelSource::NewFor(2)),
        ]
    );
    assert_eq!(plan.reused, vec![0]);
    assert_eq!(plan.to_load, vec![1, 2]);
}

#[test]
fn plan_keeps_panels_in_place() {
    let plan = plan_dashboard_panels(&slots(&[Some("a"), Some("b")]), &ids(&["a", "b"])).unwrap();
    assert!(plan.ops.is_empty());
    assert_eq!(plan.reused, vec![0, 1]);
    assert!(plan.to_load.is_empty());
}

#[test]
fn plan_refused_when_a_view_lies_past_the_panels() {
    assert!(plan_dashboard_panels(&slots(&[None, Some("a")]), &Vec::new()).is_none());
}

#[test]
fn applying_a_plan_copies_and_creates_panels() {
    let mut panels = vec![panel("b", vec![issue("i1", "x")]), panel("a", Vec::new())];
    let views = vec![Some(String::from("a")), Some(String::from("b")), Some(String::from("c"))];
    let ops = vec![
        PanelOp::Replace(0, PanelSource::CopyOf(1)),
        PanelOp::Insert(2, PanelSource::NewFor(2)),
        // Not applicable: passed over.
        PanelOp::Replace(9, PanelSource::NewFor(0)),
    ];
    apply_panel_plan(&mut panels, &views, &ops);
    let shown: Vec<&str> = panels.iter().map(|p| p.view.as_str()).collect();
    assert_eq!(shown, vec!["a", "a", "c"]);
    assert!(panels[2].issues.is_empty());
    assert!(panels[2].cursor.is_none());
}

#[test]
fn custom_views_load_once_at_a_time() {
    let mut s: AppState<String> = AppState::default();
    let c = begin_custom_views_load(&mut s).unwrap();
    assert_eq!(c.platform, Platform::Linear);
    assert!(s.custom_view_loading);
    assert!(begin_custom_views_load(&mut s).is_none());
    receive_custom_views_page(&mut s, vec![String::from("v1")], page(true, "c1"));
    receive_custom_views_page(&mut s, vec![String::from("v2")], page(false, "c2"));
    assert_eq!(s.custom_views, vec![String::from("v1"), String::from("v2")]);
    assert!(!s.custom_view_loading);
    assert_eq!(s.custom_view_cursor.platform, Platform::Linear);
    assert!(!s.custom_view_cursor.has_next_page);
    assert_eq!(s.custom_view_cursor.end_cursor, Some(String::from("c2")));
}

#[test]
fn panel_pages_append_or_replace() {
    let mut s: AppState<String> = AppState::default();
    s.view_panels = vec![panel("a", vec![issue("i1", "one")])];
    assert!(matches!(begin_panel_page_load(&mut s), Some((0, None))));
    assert!(s.view_panels[0].loading);
    assert!(begin_panel_page_load(&mut s).is_none());
    receive_panel_page(&mut s, 0, vec![issue("i2", "two")], page(true, "p1"), true);
    assert_eq!(s.view_panels[0].issues.len(), 2);
    assert!(!s.view_panels[0].loading);
    assert_eq!(start_panel_load(&mut s, 0).unwrap().end_cursor, Some(String::from("p1")));
    receive_panel_page(&mut s, 0, vec![issue("i3", "three")], page(false, "p2"), false);
    assert_eq!(s.view_panels[0].issues.len(), 1);
    assert_eq!(s.view_panels[0].issues[0].id, "i3");
}

fn modal_state(op: IssueModificationOp) -> AppState<String> {
    let mut s: AppState<String> = AppState::default();
    s.route = Route::ActionSelect;
    s.view_panels = vec![panel("a", vec![issue("i1", "one"), issue("i2", "two")])];
    exec_select_view_panel_cmd(&mut s, 1);
    s.issue_op.current_op = Some(op);
    s
}

#[test]
fn candidates_are_asked_for_the_issue_team() {
    let mut s = modal_state(IssueModificationOp::ModifyAssignee);
    let req = begin_issue_op_load(&mut s).unwrap();
    assert_eq!(req.kind, IssueOpRequestKind::TeamMembers);
    assert_eq!(req.team_id, "team-9");
    assert!(s.issue_op.loading);
    assert!(begin_issue_op_load(&mut s).is_none());
    let mut t = modal_state(IssueModificationOp::ModifyTitle);
    assert!(begin_issue_op_load(&mut t).is_none());
    assert!(!t.issue_op.loading);
}

#[test]
fn candidate_pages_follow_the_candidates() {
    let mut s = modal_state(IssueModificationOp::ModifyWorkflowState);
    s.issue_op.loading = true;
    receive_issue_op_page(&mut s.issue_op, IssueOpPage::States(vec![wstate("Todo")]), page(true, "s1"));
    receive_issue_op_page(&mut s.issue_op, IssueOpPage::States(vec![wstate("Done")]), page(false, "s2"));
    assert_eq!(s.issue_op.obj_data.workflow_states.len(), 2);
    assert_eq!(s.issue_op.obj_data.workflow_states[1].name, "Done");
    assert!(!s.issue_op.loading);
    assert_eq!(s.issue_op.cursor.end_cursor, Some(String::from("s2")));
    assert!(s.issue_op.obj_data.users.is_empty());
}

#[test]
fn updates_name_the_selected_issue_and_candidate() {
    let mut s = modal_state(IssueModificationOp::ModifyWorkflowState);
    s.issue_op.obj_data.workflow_states = vec![wstate("Todo"), wstate("Done")];
    assert!(plan_issue_update(&s).is_none());
    s.issue_op.selected_idx = Some(1);
    let (id, change) = plan_issue_update(&s).unwrap();
    assert_eq!(id, "i1");
    assert_eq!(update_field(&change), (UpdateField::StateId, String::from("state-Done")));

    let mut t = modal_state(IssueModificationOp::ModifyTitle);
    t.title_entry.input.input = String::from("New title");
    let (id, change) = plan_issue_update(&t).unwrap();
    assert_eq!(id, "i1");
    assert_eq!(update_field(&change), (UpdateField::Title, String::from("New title")));
}

#[test]
fn a_change_reaches_every_copy_of_the_issue() {
    let mut issues = vec![issue("i1", "one"), issue("i2", "two"), issue("i1", "one again")];
    apply_issue_change(&mut issues, &String::from("i1"), &IssueChange::Title(String::from("renamed")));
    assert_eq!(issues[0].title, "renamed");
    assert_eq!(issues[1].title, "two");
    assert_eq!(issues[2].title, "renamed");

    let mut s: AppState<String> = AppState::default();
    s.view_panels = vec![panel("a", vec![issue("i1", "one")]), panel("b", vec![issue("i2", "x"), issue("i1", "one")])];
    let user = User { id: String::from("u1"), name: Some(String::from("Ann")), display_name: None };
    apply_issue_change_to_panels(&mut s, &String::from("i1"), &IssueChange::Assignee(user));
    assert_eq!(s.view_panels[0].issues[0].assignee.as_ref().map(|u| u.id.as_str()), Some("u1"));
    assert!(s.view_panels[1].issues[0].assignee.is_none());
    assert_eq!(s.view_panels[1].issues[1].assignee.as_ref().map(|u| u.id.as_str()), Some("u1"));
    assert_eq!(s.view_panels[1].view, "b");
}

#[test]
fn update_fields_of_each_change() {
    let c = Cycle { id: String::from("c1"), ..Cycle::default() };
    assert_eq!(update_field(&IssueChange::Cycle(c)), (UpdateField::CycleId, String::from("c1")));
    let s = wstate("Done");
    assert_eq!(update_field(&IssueChange::State(s.clone())).0, UpdateField::StateId);
    let mut i = issue("i", "t");
    let mut v = vec![i.clone()];
    apply_issue_change(&mut v, &String::from("i"), &IssueChange::State(s));
    i.state = wstate("Done");
    assert_eq!(v[0].state.name, i.state.name);
}

#[test]
fn update_input_field_names() {
    assert_eq!(UpdateField::Title.name(), "title");
    assert_eq!(UpdateField::StateId.name(), "stateId");
    assert_eq!(UpdateField::AssigneeId.name(), "assigneeId");
    assert_eq!(UpdateField::ProjectId.name(), "projectId");
    assert_eq!(UpdateField::CycleId.name(), "cycleId");
}

#[test]
fn paging_variables() {
    assert_eq!(page_variables(50, &None), (50, None));
    let c = GraphQLCursor { platform: Platform::Linear, has_next_page: true, end_cursor: Some(String::from("e1")) };
    assert_eq!(page_variables(20, &Some(c)), (20, Some(String::from("e1"))));
}

#[test]
fn first_panel_of_a_view() {
    let panel_ids = ids(&["a", "b", "a"]);
    assert_eq!(position_of_view(&panel_ids, &String::from("a")), Some(0));
    assert_eq!(position_of_view(&panel_ids, &String::from("b")), Some(1));
    assert_eq!(position_of_view(&panel_ids, &String::from("z")), None);
}

fn custom_view(id: &str) -> CustomView {
    CustomView {
        id: String::from(id),
        name: format!("View {}", id),
        description: None,
        color: None,
        organization: None,
        team_key: None,
        filter_data: String::from("{}"),
    }
}

#[test]
fn panels_follow_the_view_list() {
    let mut panels: Vec<DashboardViewPanel<CustomView>> =
        vec![DashboardViewPanel::with_filter(custom_view("x")), DashboardViewPanel::with_filter(custom_view("b"))];
    panels[1].issues.push(issue("i1", "kept"));
    let views = vec![Some(custom_view("a")), Some(custom_view("b")), None];
    let to_load = follow_view_list(&mut panels, &views).unwrap();
    assert_eq!(panels[0].view.id, "a");
    assert_eq!(panels[1].view.id, "b");
    // The panel of "b" was reused with its issues; the new one for "a" loads.
    assert_eq!(panels[1].issues.len(), 1);
    assert!(to_load.contains(&0));
    assert!(!to_load.contains(&1));
    // A view in a slot past the end of the panel list cannot be placed.
    let mut empty: Vec<DashboardViewPanel<CustomView>> = Vec::new();
    assert!(follow_view_list(&mut empty, &vec![None, Some(custom_view("a"))]).is_none());
    assert!(empty.is_empty());
}

#[test]
fn deleting_a_slot_drops_its_panel() {
    let mut s: AppState<CustomView> = AppState::default();
    s.route = Route::DashboardViewDisplay;
    s.dashboard_views = vec![Some(custom_view("a")), Some(custom_view("b")), None, None, None, None];
    s.view_panels = vec![DashboardViewPanel::with_filter(custom_view("a")), DashboardViewPanel::with_filter(custom_view("b"))];
    s.dashboard_view_idx = Some(0);
    let removed = exec_delete_cmd(&mut s).unwrap();
    assert_eq!(removed.id, "a");
    assert_eq!(s.view_panels.len(), 1);
    assert_eq!(s.view_panels[0].view.id, "b");
    assert_eq!(s.dashboard_views[0].as_ref().map(|v| v.id.clone()), Some(String::from("b")));
    s.dashboard_view_idx = Some(3);
    assert!(exec_delete_cmd(&mut s).is_none());
    assert_eq!(s.view_panels.len(), 1);
}

#[test]
fn confirming_places_the_chosen_custom_view() {
    let mut s: AppState<CustomView> = AppState::default();
    s.route = Route::DashboardViewDisplay;
    s.custom_views = vec![custom_view("x"), custom_view("y")];
    s.dashboard_views = vec![Some(custom_view("a")), None, None, None, None, None];
    s.dashboard_view_idx = Some(3);
    exec_confirm_cmd(&mut s);
    s.selected_custom_view_idx = Some(1);
    exec_confirm_cmd(&mut s);
    let ids: Vec<Option<String>> = s.dashboard_views.iter().map(|v| v.as_ref().map(|v| v.id.clone())).collect();
    assert_eq!(ids, vec![Some(String::from("a")), Some(String::from("y")), None, None, None, None]);
    assert_eq!(s.dashboard_views[1].as_ref().unwrap().filter_data, "{}");
}

#[test]
fn pages_of_a_view_and_of_team_time_zones_accumulate() {
    let mut found = vec![issue("i1", "a")];
    let mut requests: u32 = 0;
    let mut cursor = GraphQLCursor::default();
    receive_view_page(&mut found, &mut requests, &mut cursor, vec![issue("i2", "b")],
        PageInfo { has_next_page: true, end_cursor: Some(String::from("c1")) });
    assert_eq!(found.len(), 2);
    assert_eq!(found[1].id, "i2");
    assert_eq!(requests, 1);
    assert_eq!(cursor.platform, Platform::Linear);
    assert!(cursor.has_next_page);
    assert_eq!(cursor.end_cursor, Some(String::from("c1")));
    let mut pairs = vec![(String::from("t1"), String::from("UTC"))];
    let mut cursor = GraphQLCursor::default();
    receive_team_timezones(&mut pairs, &mut cursor, vec![(String::from("t2"), String::from("Asia/Tokyo"))],
        PageInfo { has_next_page: false, end_cursor: None });
    assert_eq!(pairs.len(), 2);
    assert!(is_exhausted(&cursor));
    assert_eq!(viewer_label("Ann", "Acme"), "Ann - Acme");
}
