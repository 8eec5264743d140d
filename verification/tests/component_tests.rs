use rust_cli::app::Platform;
use rust_cli::components::command_bar::{CommandBar, CommandBarType, CommandStyle, Emphasis};
use rust_cli::components::linear_issue_op_interface::LinearIssueOpInterface;
use rust_cli::components::task_status_modal::{self, TaskStatus};
use rust_cli::components::title_entry::{TitleEntry, TitleValidationState};
use rust_cli::components::token_entry::{TokenEntry, TokenValidationState};
use rust_cli::components::user_input::{self, UserInput};
use rust_cli::constants::IssueModificationOp;
use rust_cli::errors::ConfigError;
use rust_cli::linear::config::{is_token_len_valid, setting_from_env_value, CachedDataFile, LinearConfig};
use rust_cli::linear::error::LinearClientError;
use rust_cli::linear::timezone_manager::{
    due_date_category_from_diff, get_issue_due_date_category, is_calendar_date, is_due_date_ok, is_valid_due_date,
    parse_linear_issue_due_date, split_str, SECONDS_PER_DAY,
};
use rust_cli::linear::types::{User, WorkflowState};
use rust_cli::linear::view_resolver::{next_fetch_action, FetchAction, FilterType};
use rust_cli::util::colors;
use rust_cli::constants::command_list::{Command, CommandList, DashboardCommand, ViewListCommand};
use rust_cli::util::cursor::GraphQLCursor;
use rust_cli::util::query::verify_linear_api_key_present;

const TOKEN: &str = "lin_api_0123456789abcdefghijklmnopqrstuvwxyzABCD";

fn config() -> LinearConfig {
    LinearConfig::from_env_values(None, None, None, None, None, None)
}

#[test]
fn user_input_inserts_at_the_cursor() {
    let mut u = UserInput::new(false);
    assert_eq!(u.cursor_offset, 1);
    u.insert('a');
    u.insert('c');
    assert_eq!(u.input, "ac");
    u.move_cursor_back();
    u.insert('b');
    assert_eq!(u.input, "abc");
    assert_eq!(u.cursor_offset, 3);
}

#[test]
fn user_input_deletes_before_the_cursor() {
    let mut u = UserInput::new(false);
    u.set_input(String::from("hello"));
    assert_eq!(u.cursor_offset, 6);
    u.delete();
    assert_eq!(u.input, "hell");
    u.move_cursor_back();
    u.move_cursor_back();
    u.delete();
    assert_eq!(u.input, "hll");
    assert_eq!(u.cursor_offset, 2);
    u.move_cursor_back();
    u.delete();
    assert_eq!(u.input, "hll");
    assert_eq!(u.cursor_offset, 1);
}

#[test]
fn delete_undoes_insert() {
    for cursor in 1..=4 {
        let mut u = UserInput::new(false);
        u.set_input(String::from("abc"));
        u.cursor_offset = cursor;
        u.insert('x');
        u.delete();
        assert_eq!(u.input, "abc");
        assert_eq!(u.cursor_offset, cursor);
    }
}

#[test]
fn user_input_cursor_stays_within_the_text() {
    let mut u = UserInput::new(false);
    u.set_input(String::from("ab"));
    u.move_cursor_forwards();
    assert_eq!(u.cursor_offset, 3);
    u.move_cursor_back();
    u.move_cursor_back();
    u.move_cursor_back();
    assert_eq!(u.cursor_offset, 1);
    u.move_cursor_back();
    assert_eq!(u.cursor_offset, 1);
    u.move_cursor_forwards();
    u.move_cursor_back();
    assert_eq!(u.cursor_offset, 1);
}

#[test]
fn user_input_hides_secrets() {
    let mut u = UserInput::new(true);
    u.set_input(String::from("secret"));
    assert_eq!(u.display_str(), "******");
    assert_eq!(u.unicode_width(), 6);
    let mut v = UserInput::new(false);
    v.set_input(String::from("plain"));
    assert_eq!(v.display_str(), "plain");
    let w = user_input::new(true);
    assert_eq!(w.cursor_offset, 0);
}

#[test]
fn user_input_refuses_edits_off_a_grapheme_boundary() {
    let mut u = user_input::new(false);
    // Offset 0 is no place to insert at.
    assert!(!u.try_insert('x'));
    assert_eq!(u.input, "");
}

#[test]
fn token_entry_messages() {
    let mut t = TokenEntry::default();
    assert_eq!(t.gen_help_msg(), "Press Enter to submit token");
    assert_eq!(t.gen_status_msg(0), None);
    t.token_validation_state = TokenValidationState::Validating;
    assert_eq!(t.gen_status_msg(0), Some(String::from("\nValidating.")));
    assert_eq!(t.gen_status_msg(4), Some(String::from("\nValidating..")));
    assert_eq!(t.gen_status_msg(5), Some(String::from("\nValidating...")));
    t.token_validation_state = TokenValidationState::Invalid;
    assert_eq!(t.gen_status_msg(0), Some(String::from("\nInvalid Linear Access Token")));
    t.token_validation_state = TokenValidationState::Valid;
    assert_eq!(t.gen_status_msg(0), Some(String::from("\nValidated")));
}

#[test]
fn title_entry_messages() {
    let mut t = TitleEntry::default();
    assert_eq!(t.gen_help_msg(), "Press Enter to submit title");
    assert_eq!(t.gen_status_msg(), "");
    t.title_validation_state = TitleValidationState::Invalid;
    assert_eq!(t.gen_status_msg(), "\nInvalid Issue Title");
}

#[test]
fn task_status_text() {
    assert_eq!(task_status_modal::render(TaskStatus::LoadingTeamTimezones, 2), "Loading Team Timezones...");
    assert_eq!(task_status_modal::render(TaskStatus::LoadingTeamTimezones, 3), "Loading Team Timezones.");
}

#[test]
fn command_bar_styles() {
    let mut bar = CommandBar::with_type(CommandBarType::Dashboard);
    let refresh = Command::Dashboard(DashboardCommand::RefreshPanel);
    assert_eq!(
        bar.get_command_style(&refresh),
        CommandStyle { emphasis: Emphasis::Dim, color: colors::REFRESH_PANEL_CMD_INACTIVE }
    );
    bar.set_refresh_panel_active(true);
    assert_eq!(
        bar.get_command_style(&refresh),
        CommandStyle { emphasis: Emphasis::Bold, color: colors::REFRESH_PANEL_CMD_ACTIVE }
    );
    let assignee = Command::Dashboard(DashboardCommand::ModifyAssignee);
    bar.set_active(assignee, true);
    let entries = bar.render();
    assert_eq!(entries.len(), 5);
    assert_eq!(entries[0].0, "'r': Refresh");
    assert_eq!(entries[1].0, "'w': Modify Workflow State");
    assert_eq!(entries[1].1, CommandStyle { emphasis: Emphasis::Bold, color: colors::MODIFY_WORKFLOW_STATE_CMD_INACTIVE });
    assert_eq!(entries[2], (String::from("'a': Modify Assignee"), CommandStyle { emphasis: Emphasis::Bold, color: colors::MODIFY_ASSIGNEE_CMD_ACTIVE }));
    assert_eq!(entries[3], (String::from("'p': Modify Project"), CommandStyle { emphasis: Emphasis::Dim, color: colors::MODIFY_PROJECT_CMD_INACTIVE }));
    assert_eq!(entries[4].0, "'c': Modify Cycle");
    let mut list_bar = CommandBar::with_type(CommandBarType::ViewList);
    list_bar.set_remove_view_active(true);
    let entries = list_bar.render();
    assert_eq!(entries, vec![(
        String::from("'d': Delete View"),
        CommandStyle { emphasis: Emphasis::Bold, color: colors::DELETE_VIEW_CMD_ACTIVE }
    )]);
    let _ = Command::ViewList(ViewListCommand::RemoveView);
}

#[test]
fn command_list_labels() {
    let list = CommandList::default();
    let keys: Vec<char> = list.dashboard.iter().map(|c| c.key_char).collect();
    assert_eq!(keys, vec!['r', 'w', 'a', 'p', 'c']);
    assert_eq!(list.dashboard[0].gen_label(), "'r': Refresh");
    assert_eq!(list.dashboard[4].gen_label(), "'c': Modify Cycle");
    assert_eq!(list.view_list.len(), 1);
    assert_eq!(list.view_list[0].gen_label(), "'d': Delete View");
}

#[test]
fn due_dates_are_checked_and_read() {
    assert!(is_valid_due_date("2023-04-05"));
    assert!(!is_valid_due_date("2023-04"));
    assert!(!is_valid_due_date("2023-xx-05"));
    assert!(!is_valid_due_date("2023-04-05-01"));
    assert_eq!(parse_linear_issue_due_date("2023-04-05"), vec![2023, 4, 5]);
    assert_eq!(parse_linear_issue_due_date("1999-12-31"), vec![1999, 12, 31]);
    assert_eq!(split_str("a-b--c", '-'), vec![String::from("a"), String::from("b"), String::new(), String::from("c")]);
}

#[test]
fn due_date_categories() {
    assert_eq!(due_date_category_from_diff(0, 5), FilterType::Overdue);
    assert_eq!(due_date_category_from_diff(-100, 5), FilterType::Overdue);
    assert_eq!(due_date_category_from_diff(3600, 5), FilterType::DueToday);
    assert_eq!(due_date_category_from_diff(2 * SECONDS_PER_DAY, 5), FilterType::HasDueDate);
    assert_eq!(due_date_category_from_diff(6 * SECONDS_PER_DAY, 5), FilterType::DueSoon);
}

#[test]
fn fetch_loop_stops_when_done() {
    let open = GraphQLCursor { platform: Platform::Linear, has_next_page: true, end_cursor: Some(String::from("e")) };
    let done = GraphQLCursor { platform: Platform::Linear, has_next_page: false, end_cursor: None };
    assert_eq!(next_fetch_action(&open, 0, 50, false), FetchAction::Request);
    assert_eq!(next_fetch_action(&open, 10, 50, true), FetchAction::Request);
    assert_eq!(next_fetch_action(&open, 50, 50, true), FetchAction::Stop);
    assert_eq!(next_fetch_action(&done, 0, 50, false), FetchAction::Stop);
    assert_eq!(next_fetch_action(&GraphQLCursor::default(), 0, 50, false), FetchAction::Request);
}

#[test]
fn settings_from_the_environment() {
    assert_eq!(setting_from_env_value(Some("25"), 50), 25);
    assert_eq!(setting_from_env_value(Some("x"), 50), 50);
    assert_eq!(setting_from_env_value(Some("-3"), 50), 50);
    assert_eq!(setting_from_env_value(None, 7), 7);
    let c = LinearConfig::from_env_values(Some("10"), None, Some("bad"), None, None, Some("3"));
    assert_eq!(c.issue_page_size, 10);
    assert_eq!(c.view_panel_page_size, 50);
    assert_eq!(c.issue_op_page_size, 50);
    assert_eq!(c.due_soon_day_threshold, 3);
    assert!(!c.is_valid_token);
    assert_eq!(c.api_key, None);
}

#[test]
fn tokens_of_the_right_length_are_accepted() {
    assert_eq!(TOKEN.len(), 48);
    assert!(is_token_len_valid(TOKEN));
    assert!(!is_token_len_valid("short"));
    let mut c = config();
    assert!(!c.accept_cached_token(String::from("short")));
    assert_eq!(c.api_key, None);
    assert!(c.accept_cached_token(String::from(TOKEN)));
    assert!(c.is_valid_token);
    assert_eq!(c.api_key, Some(String::from(TOKEN)));
    let mut d = config();
    d.set_access_token("abc");
    assert_eq!(d.api_key, Some(String::from("abc")));
}

#[test]
fn cached_file_names() {
    assert_eq!(LinearConfig::cached_file_name(CachedDataFile::AccessToken), "config.txt");
    assert_eq!(LinearConfig::cached_file_name(CachedDataFile::ViewerObject), "viewer.txt");
    assert_eq!(LinearConfig::cached_file_name(CachedDataFile::ViewList), "view_list.txt");
}

#[test]
fn missing_api_key_is_an_error() {
    let mut c = config();
    match verify_linear_api_key_present(&c) {
        Err(LinearClientError::InvalidConfig(ConfigError::CredentialsNotFound { platform })) => {
            assert_eq!(platform, "Linear")
        },
        _ => panic!("expected missing credentials"),
    }
    c.set_access_token(TOKEN);
    assert_eq!(verify_linear_api_key_present(&c).ok(), Some(String::from(TOKEN)));
}

#[test]
fn modification_titles_and_widths() {
    assert_eq!(
        LinearIssueOpInterface::title_from_op(&IssueModificationOp::ModifyWorkflowState),
        "Select New Workflow State"
    );
    assert_eq!(LinearIssueOpInterface::title_from_op(&IssueModificationOp::ModifyCycle), "Select New Cycle");
    assert_eq!(
        LinearIssueOpInterface::widths_from_rect_op(100, &IssueModificationOp::ModifyWorkflowState),
        Some(vec![28, 28, 42])
    );
    assert_eq!(
        LinearIssueOpInterface::widths_from_rect_op(100, &IssueModificationOp::ModifyAssignee),
        Some(vec![49, 50])
    );
    assert_eq!(LinearIssueOpInterface::widths_from_rect_op(0, &IssueModificationOp::ModifyAssignee), None);
}

#[test]
fn modification_selection_and_reset() {
    let mut op = LinearIssueOpInterface::default();
    assert!(op.table_data_from_op().is_none());
    op.current_op = Some(IssueModificationOp::ModifyAssignee);
    op.obj_data.users = vec![User { id: String::from("u"), name: None, display_name: None }];
    assert_eq!(op.table_data_from_op().map(|v| v.len()), Some(1));
    assert!(!op.is_valid_selection_for_update(""));
    op.selected_idx = Some(0);
    assert!(op.is_valid_selection_for_update(""));
    op.reset_op();
    assert!(op.current_op.is_none());
    assert!(op.obj_data.users.is_empty());
    op.current_op = Some(IssueModificationOp::ModifyTitle);
    assert!(op.is_valid_selection_for_update("New title"));
    assert!(!op.is_valid_selection_for_update(""));
    let _ = WorkflowState {
        id: String::new(),
        name: String::new(),
        state_type: String::new(),
        color: String::new(),
        description: None,
    };
}

#[test]
fn calendar_days() {
    assert!(is_calendar_date(2024, 2, 29));
    assert!(!is_calendar_date(2023, 2, 29));
    assert!(!is_calendar_date(1900, 2, 29));
    assert!(is_calendar_date(2000, 2, 29));
    assert!(!is_calendar_date(2023, 13, 1));
    assert!(!is_calendar_date(2023, 4, 31));
    assert!(!is_calendar_date(2023, 4, 0));
    assert!(is_due_date_ok("2023-04-30"));
    assert!(!is_due_date_ok("2023-04-31"));
    assert!(!is_due_date_ok("2023-4"));
}

#[test]
fn issue_due_date_categories() {
    assert_eq!(get_issue_due_date_category(None, 0, (2023, 4, 5, 12, 0, 0), 5), FilterType::NoDueDate);
    let due = Some("2023-04-05");
    assert_eq!(get_issue_due_date_category(due, 3600, (2023, 4, 5, 12, 0, 0), 5), FilterType::DueToday);
    assert_eq!(get_issue_due_date_category(due, 3600, (2023, 4, 6, 0, 0, 0), 5), FilterType::Overdue);
    assert_eq!(get_issue_due_date_category(due, -18000, (2023, 4, 1, 0, 0, 0), 5), FilterType::HasDueDate);
    assert_eq!(get_issue_due_date_category(due, -18000, (2023, 4, 1, 0, 0, 0), 3), FilterType::DueSoon);
    // Over a leap day and over the turn of a year.
    assert_eq!(get_issue_due_date_category(Some("2024-03-01"), 0, (2024, 2, 28, 0, 0, 0), 3), FilterType::HasDueDate);
    assert_eq!(get_issue_due_date_category(Some("2024-03-01"), 0, (2024, 2, 28, 0, 0, 0), 2), FilterType::DueSoon);
    assert_eq!(get_issue_due_date_category(Some("2024-01-01"), 0, (2023, 12, 31, 23, 59, 59), 1), FilterType::DueSoon);
    assert_eq!(get_issue_due_date_category(Some("2024-01-01"), 0, (2023, 12, 31, 23, 59, 59), 2), FilterType::HasDueDate);
    // Without a due date neither the offset nor the moment is read.
    assert_eq!(get_issue_due_date_category(None, i32::MAX, (0, 13, 40, 99, 99, 99), 5), FilterType::NoDueDate);
    // Later due days never fall in a more pressing category.
    let now = (2023, 4, 5, 12, 0, 0);
    let cats: Vec<FilterType> = ["2023-04-04", "2023-04-05", "2023-04-07", "2023-04-20"]
        .iter()
        .map(|d| get_issue_due_date_category(Some(d), 0, now, 5))
        .collect();
    assert_eq!(cats, vec![FilterType::Overdue, FilterType::DueToday, FilterType::HasDueDate, FilterType::DueSoon]);
}
