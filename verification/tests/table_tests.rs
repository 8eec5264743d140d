use rust_cli::components::dashboard_view_panel::{issue_cell_fields, DashboardViewPanel};
use rust_cli::components::linear_issue_display::LinearIssueDisplay;
use rust_cli::components::linear_team_select::LinearTeamSelectState;
use rust_cli::components::linear_workflow_state_display::LinearWorkflowStateDisplayState;
use rust_cli::components::linear_issue_op_interface::{LinearIssueOpInterface, ModificationOpData};
use rust_cli::components::view_tables::{view_cell_fields, DashboardViewDisplay, LinearCustomViewSelect, ViewSummary};
use rust_cli::constants::table_columns::{custom_view_select_columns, view_panel_columns};
use rust_cli::constants::IssueModificationOp;
use rust_cli::components::linear_issue_modal::{colored_title_from_issue, issue_fields, issue_labels, label_scroll};
use rust_cli::linear::types::{Cycle, Issue, Label, Project, Team, User, WorkflowState};
use rust_cli::util::table::i64_to_decimal;
use rust_cli::util::ui::Color;

fn wstate(name: &str, color: &str, description: Option<&str>) -> WorkflowState {
    WorkflowState {
        id: format!("s-{}", name),
        name: String::from(name),
        state_type: String::from("unstarted"),
        color: String::from(color),
        description: description.map(String::from),
    }
}

fn issue(number: i64, title: &str, description: Option<&str>) -> Issue {
    Issue {
        id: format!("i{}", number),
        created_at: String::from("2023-01-01"),
        number,
        due_date: None,
        title: String::from(title),
        description: description.map(String::from),
        priority: 0,
        estimate: None,
        team: Team { id: String::from("t"), name: None, key: None, description: None },
        state: wstate("Todo", "#aaaaaa", None),
        creator: None,
        assignee: None,
        labels: Vec::new(),
        cycle: Cycle::default(),
        project: None,
        subscribers: Vec::new(),
    }
}

#[test]
fn signed_numbers_as_text() {
    assert_eq!(i64_to_decimal(0), "0");
    assert_eq!(i64_to_decimal(42), "42");
    assert_eq!(i64_to_decimal(-7), "-7");
    assert_eq!(i64_to_decimal(i64::MIN), i64::MIN.to_string());
    assert_eq!(i64_to_decimal(i64::MAX), i64::MAX.to_string());
}

#[test]
fn issue_cells_of_a_view_panel() {
    let cols = view_panel_columns();
    let fields = issue_cell_fields(&issue(12, "Fix bug", Some("Details")), &cols);
    assert_eq!(fields, vec!["12", "Fix bug", "Todo", "Details", "2023-01-01"]);
    let fields = issue_cell_fields(&issue(3, "T", None), &cols);
    assert_eq!(fields[3], "");
}

#[test]
fn view_panel_rows_share_one_height() {
    let widths = vec![8, 26, 17, 26, 18];
    let issues = vec![issue(7, "Fix bug", None), issue(8, "Title", Some("one two three four five six seven eight"))];
    let t = DashboardViewPanel::with_filter(()).render(&widths);
    assert!(t.unwrap().rows.is_empty());
    let mut panel = DashboardViewPanel::with_filter(String::from("Bugs"));
    panel.issues = issues;
    let t = panel.render(&widths).unwrap();
    // The description of the second issue wraps to two lines of 26 columns,
    // the height every row gets.
    assert_eq!(t.row_height, 2);
    assert_eq!(t.rows.len(), 2);
    assert_eq!(t.rows[0][0].text, "7");
    assert_eq!(t.rows[0][1].text, "Fix bug");
    assert_eq!(t.rows[0][2].text, "Todo");
    assert_eq!(t.rows[0][2].fg, Some(Color::Rgb(0xaa, 0xaa, 0xaa)));
    assert_eq!(t.rows[0][1].fg, None);
    assert_eq!(t.rows[1][3].text, "one two three four five\nsix seven eight");
}

#[test]
fn candidate_rows_of_a_modification() {
    let mut data = ModificationOpData::default();
    data.workflow_states = vec![wstate("Todo", "#ff0000", None), wstate("Done", "#00ff00", Some("finished work"))];
    let t = LinearIssueOpInterface::candidate_table(IssueModificationOp::ModifyWorkflowState, &data, &vec![28, 28, 42]).unwrap();
    assert_eq!(t.rows.len(), 2);
    assert_eq!(t.rows[0][0].text, "Todo");
    assert_eq!(t.rows[0][0].fg, Some(Color::Rgb(255, 0, 0)));
    assert_eq!(t.rows[1][2].text, "finished work");
    assert_eq!(t.rows[1][1].fg, None);
    assert_eq!(t.row_height, 0);

    data.users = vec![User { id: String::from("u"), name: Some(String::from("Ann")), display_name: None }];
    let t = LinearIssueOpInterface::candidate_table(IssueModificationOp::ModifyAssignee, &data, &vec![49, 50]).unwrap();
    assert_eq!(t.rows.len(), 1);
    assert_eq!(t.rows[0][0].text, "Ann");
    assert_eq!(t.rows[0][1].text, "");
    assert_eq!(t.rows[0][0].fg, None);
}

fn summary(name: &str, description: Option<&str>, team: Option<&str>, color: Option<&str>) -> ViewSummary {
    ViewSummary {
        name: String::from(name),
        description: description.map(String::from),
        organization: String::from("Acme"),
        team_key: team.map(String::from),
        color: color.map(String::from),
    }
}

#[test]
fn view_cells_take_their_fallbacks() {
    let v = summary("Bugs", None, None, None);
    let f = view_cell_fields(&v, &custom_view_select_columns());
    assert_eq!(f, vec!["Bugs", "", "Acme", "All Teams"]);
    let w = summary("Bugs", Some("d"), Some("ENG"), None);
    assert_eq!(view_cell_fields(&w, &custom_view_select_columns()), vec!["Bugs", "d", "Acme", "ENG"]);
}

#[test]
fn custom_view_rows_share_the_tallest_height() {
    let widths: Vec<u16> = vec![10, 20, 10, 10];
    let list = vec![
        summary("Bugs", None, None, Some("#ff0000")),
        summary("Sprint", Some("one two three four five six"), Some("ENG"), None),
    ];
    let t = LinearCustomViewSelect::render(&list, &widths).unwrap();
    assert_eq!(t.rows.len(), 2);
    assert_eq!(t.row_height, 1);
    assert_eq!(t.rows[0][0].text, "Bugs");
    assert_eq!(t.rows[0][0].fg, Some(Color::Rgb(255, 0, 0)));
    assert_eq!(t.rows[0][3].text, "All Teams");
    assert_eq!(t.rows[0][3].fg, None);
    assert_eq!(t.rows[1][1].text, "one two three four\nfive six");
    // A view without a color has its name in black.
    assert_eq!(t.rows[1][0].fg, Some(Color::Rgb(0, 0, 0)));
    assert!(LinearCustomViewSelect::render(&Vec::new(), &widths).unwrap().rows.is_empty());
}

#[test]
fn dashboard_view_list_marks_empty_slots() {
    let widths: Vec<u16> = vec![10, 20, 10, 10];
    let slots = vec![Some(summary("Bugs", None, None, Some("#00ff00"))), None, Some(summary("Plain", None, None, None))];
    let t = DashboardViewDisplay::get_rendered_view_table(&slots, &widths).unwrap();
    assert_eq!(t.rows.len(), 3);
    assert_eq!(t.row_height, 0);
    assert_eq!(t.rows[0].len(), 4);
    assert_eq!(t.rows[0][0].text, "Bugs");
    assert_eq!(t.rows[0][0].fg, Some(Color::Rgb(0, 255, 0)));
    assert_eq!(t.rows[1].len(), 3);
    assert_eq!(t.rows[1][0].text, "Empty Slot");
    assert_eq!(t.rows[1][0].fg, None);
    // A placed view without a color keeps the default style.
    assert_eq!(t.rows[2][0].fg, None);
}

#[test]
fn issue_modal_title_and_fields() {
    let mut i = issue(42, "Ship it", None);
    let t = colored_title_from_issue(&i);
    assert_eq!(t.text, "42 - Ship it");
    assert_eq!(t.fg, Some(Color::Rgb(0xaa, 0xaa, 0xaa)));
    i.state.color = String::from("not a color");
    assert_eq!(colored_title_from_issue(&i).fg, Some(Color::Green));

    i.priority = 2;
    i.assignee = Some(User { id: String::from("u"), name: Some(String::from("Ann Lee")), display_name: Some(String::from("ann")) });
    i.project = Some(Project {
        id: String::from("p"),
        name: Some(String::from("Launch")),
        color: Some(String::from("#0000ff")),
        state: None,
    });
    let f = issue_fields(&i);
    assert_eq!(f.assignee, "ann");
    assert_eq!(f.creator, "");
    assert_eq!(f.state.text, "Todo");
    assert_eq!(f.state.fg, None);
    assert_eq!(f.priority, "2");
    assert_eq!(f.cycle, "");
    assert_eq!(f.project.text, "Launch");
    assert_eq!(f.project.fg, Some(Color::Rgb(0, 0, 255)));
}

#[test]
fn issue_modal_labels_scroll() {
    let mut i = issue(1, "T", None);
    i.labels = vec![
        Label { id: String::from("a"), name: Some(String::from("bug")), color: Some(String::from("#ff0000")) },
        Label { id: String::from("b"), name: None, color: None },
    ];
    let cells = issue_labels(&i);
    assert_eq!(cells.len(), 2);
    assert_eq!(cells[0].text, "bug");
    assert_eq!(cells[0].fg, Some(Color::Rgb(255, 0, 0)));
    assert_eq!(cells[1].text, "");
    assert_eq!(cells[1].fg, None);
    // One label never scrolls; three labels move every third tick over two lines.
    assert_eq!(label_scroll(100, 1), 0);
    assert_eq!(label_scroll(2, 3), 0);
    assert_eq!(label_scroll(3, 3), 1);
    assert_eq!(label_scroll(6, 3), 0);
    assert_eq!(label_scroll(9, 3), 1);
}

#[test]
fn plain_issue_rows() {
    let mut bad = issue(8, "Other", None);
    bad.state.color = String::from("teal");
    let rows = LinearIssueDisplay::get_rendered_issue_data(&vec![issue(7, "Fix bug", Some("a\nb\nc")), bad]);
    assert_eq!(rows.len(), 2);
    let texts: Vec<&str> = rows[0].cells.iter().map(|c| c.text.as_str()).collect();
    assert_eq!(texts, vec!["7", "Fix bug", "Todo", "a\nb\nc", "2023-01-01"]);
    assert_eq!(rows[0].cells[2].fg, Some(Color::Rgb(0xaa, 0xaa, 0xaa)));
    assert_eq!(rows[0].cells[3].fg, None);
    assert_eq!(rows[0].height, 3);
    // A state whose color cannot be read leaves its cell empty.
    assert_eq!(rows[1].cells[2].text, "");
    assert_eq!(rows[1].cells[2].fg, None);
    assert_eq!(rows[1].height, 1);
    assert!(LinearIssueDisplay::default().issue_table_data.unwrap().is_empty());
}

#[test]
fn workflow_state_rows() {
    assert_eq!(LinearWorkflowStateDisplayState::get_rendered_workflow_state_select(&None).err(), Some("Table Items is None"));
    let states = vec![wstate("Todo", "#ff0000", None), wstate("Done", "none", Some("x\ny"))];
    let rows = LinearWorkflowStateDisplayState::get_rendered_workflow_state_select(&Some(states)).unwrap();
    assert_eq!(rows.len(), 2);
    assert_eq!(rows[0].cells[0].text, "Todo");
    assert_eq!(rows[0].cells[0].fg, Some(Color::Rgb(255, 0, 0)));
    assert_eq!(rows[0].cells[1].text, "unstarted");
    assert_eq!(rows[0].cells[2].text, "");
    assert_eq!(rows[0].height, 1);
    assert_eq!(rows[1].cells[0].text, "");
    assert_eq!(rows[1].cells[2].text, "x\ny");
    assert_eq!(rows[1].height, 2);
}

#[test]
fn team_entries_need_a_name_and_a_key() {
    assert_eq!(LinearTeamSelectState::get_rendered_teams_data(&None).err(), Some("Stateful List not populated"));
    let team = |name: Option<&str>, key: Option<&str>| Team {
        id: String::from("t"),
        name: name.map(String::from),
        key: key.map(String::from),
        description: None,
    };
    let teams = vec![team(Some("Eng"), Some("ENG")), team(None, Some("X")), team(Some("Ops"), Some("OPS")), team(Some("Y"), None)];
    let items = LinearTeamSelectState::get_rendered_teams_data(&Some(teams)).unwrap();
    assert_eq!(items, vec!["Eng    ENG", "Ops    OPS"]);
    assert!(LinearTeamSelectState::get_rendered_teams_data(&Some(Vec::new())).unwrap().is_empty());
}
