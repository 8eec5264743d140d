pub mod user_input;
pub mod command_bar;
pub mod linear_issue_op_interface;
pub mod title_entry;
pub mod token_entry;
pub mod task_status_modal;
pub mod dashboard_view_panel;
pub mod linear_issue_modal;
pub mod view_tables;
pub mod linear_issue_display;
pub mod linear_workflow_state_display;
pub mod linear_team_select;
