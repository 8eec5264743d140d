//! The commands of the dashboard and of its view list, with the keys that
//! run them.
use vstd::prelude::*;
use crate::util::colors;
use crate::util::text::push_char;

verus! {

#[derive(PartialEq, Eq, Structural, Clone, Copy, Debug)]
pub enum DashboardCommand {
    RefreshPanel,
    ModifyWorkflowState,
    ModifyAssignee,
    ModifyProject,
    ModifyCycle,
}

#[derive(PartialEq, Eq, Structural, Clone, Copy, Debug)]
pub enum ViewListCommand {
    RemoveView,
}

#[derive(PartialEq, Eq, Structural, Clone, Copy, Debug)]
pub enum Command {
    Dashboard(DashboardCommand),
    ViewList(ViewListCommand),
}

/// A command as a command bar lists it, with 0xRRGGBB colors.
pub struct CommandValue<'a> {
    pub key_char: char,
    pub cmd_type: Command,
    pub label: &'a str,
    pub active_color: u32,
    pub inactive_color: u32,
}

/// The text a command is listed with: `'<key>': <label>`.
pub open spec fn label_text(key: char, label: Seq<char>) -> Seq<char> {
    seq!['\'', key, '\'', ':', ' '] + label
}

impl<'a> CommandValue<'a> {
    /// The text the command is listed with: `'<key>': <label>`.
    pub fn gen_label(&self) -> (r: String)
        ensures
            r@ == label_text(self.key_char, self.label@),
    {
        let mut s = String::new();
        push_char(&mut s, '\'');
        push_char(&mut s, self.key_char);
        push_char(&mut s, '\'');
        push_char(&mut s, ':');
        push_char(&mut s, ' ');
        s.append(self.label);
        assert(s@ =~= label_text(self.key_char, self.label@));
        s
    }
}

/// The commands of the dashboard and of the view list.
pub struct CommandList<'a> {
    pub dashboard: Vec<CommandValue<'a>>,
    pub view_list: Vec<CommandValue<'a>>,
}

/// A listed command: its key, what it runs, its label and its colors.
pub open spec fn listed_as(c: CommandValue, key: char, cmd: Command, label: &str, active: u32, inactive: u32) -> bool {
    &&& c.key_char == key
    &&& c.cmd_type == cmd
    &&& c.label@ == label@
    &&& c.active_color == active
    &&& c.inactive_color == inactive
}

impl Default for CommandList<'_> {
    /// The dashboard's commands: refresh (`r`), and modify the workflow
    /// state (`w`), the assignee (`a`), the project (`p`) and the cycle
    /// (`c`); the view list's: delete the view (`d`).
    fn default() -> (r: CommandList<'static>)
        ensures
            r.dashboard@.len() == 5,
            listed_as(r.dashboard@[0], 'r', Command::Dashboard(DashboardCommand::RefreshPanel), "Refresh",
                colors::REFRESH_PANEL_CMD_ACTIVE, colors::REFRESH_PANEL_CMD_INACTIVE),
            listed_as(r.dashboard@[1], 'w', Command::Dashboard(DashboardCommand::ModifyWorkflowState), "Modify Workflow State",
                colors::MODIFY_WORKFLOW_STATE_CMD_ACTIVE, colors::MODIFY_WORKFLOW_STATE_CMD_INACTIVE),
            listed_as(r.dashboard@[2], 'a', Command::Dashboard(DashboardCommand::ModifyAssignee), "Modify Assignee",
                colors::MODIFY_ASSIGNEE_CMD_ACTIVE, colors::MODIFY_ASSIGNEE_CMD_INACTIVE),
            listed_as(r.dashboard@[3], 'p', Command::Dashboard(DashboardCommand::ModifyProject), "Modify Project",
                colors::MODIFY_PROJECT_CMD_ACTIVE, colors::MODIFY_PROJECT_CMD_INACTIVE),
            listed_as(r.dashboard@[4], 'c', Command::Dashboard(DashboardCommand::ModifyCycle), "Modify Cycle",
                colors::MODIFY_CYCLE_CMD_ACTIVE, colors::MODIFY_CYCLE_CMD_INACTIVE),
            r.view_list@.len() == 1,
            listed_as(r.view_list@[0], 'd', Command::ViewList(ViewListCommand::RemoveView), "Delete View",
                colors::DELETE_VIEW_CMD_ACTIVE, colors::DELETE_VIEW_CMD_INACTIVE),
    {
        let dashboard: Vec<CommandValue<'static>> = vec![
            CommandValue {
                key_char: 'r',
                cmd_type: Command::Dashboard(DashboardCommand::RefreshPanel),
                label: "Refresh",
                active_color: colors::REFRESH_PANEL_CMD_ACTIVE,
                inactive_color: colors::REFRESH_PANEL_CMD_INACTIVE,
            },
            CommandValue {
                key_char: 'w',
                cmd_type: Command::Dashboard(DashboardCommand::ModifyWorkflowState),
                label: "Modify Workflow State",
                active_color: colors::MODIFY_WORKFLOW_STATE_CMD_ACTIVE,
                inactive_color: colors::MODIFY_WORKFLOW_STATE_CMD_INACTIVE,
            },
            CommandValue {
                key_char: 'a',
                cmd_type: Command::Dashboard(DashboardCommand::ModifyAssignee),
                label: "Modify Assignee",
                active_color: colors::MODIFY_ASSIGNEE_CMD_ACTIVE,
                inactive_color: colors::MODIFY_ASSIGNEE_CMD_INACTIVE,
            },
            CommandValue {
                key_char: 'p',
                cmd_type: Command::Dashboard(DashboardCommand::ModifyProject),
                label: "Modify Project",
                active_color: colors::MODIFY_PROJECT_CMD_ACTIVE,
                inactive_color: colors::MODIFY_PROJECT_CMD_INACTIVE,
            },
            CommandValue {
                key_char: 'c',
                cmd_type: Command::Dashboard(DashboardCommand::ModifyCycle),
                label: "Modify Cycle",
                active_color: colors::MODIFY_CYCLE_CMD_ACTIVE,
                inactive_color: colors::MODIFY_CYCLE_CMD_INACTIVE,
            },
        ];
        let view_list: Vec<CommandValue<'static>> = vec![
            CommandValue {
                key_char: 'd',
                cmd_type: Command::ViewList(ViewListCommand::RemoveView),
                label: "Delete View",
                active_color: colors::DELETE_VIEW_CMD_ACTIVE,
                inactive_color: colors::DELETE_VIEW_CMD_INACTIVE,
            },
        ];
        CommandList { dashboard, view_list }
    }
}

} // verus!
