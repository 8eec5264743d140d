//! The bar listing the commands available on the dashboard or on its view
//! list, each drawn as active or inactive.
use vstd::prelude::*;
use crate::util::colors;
use crate::constants::command_list::{
    label_text, Command, CommandList, CommandValue, DashboardCommand, ViewListCommand,
};

verus! {

#[derive(PartialEq, Eq, Structural, Clone, Copy, Debug)]
pub enum CommandBarType {
    Dashboard,
    ViewList,
}

/// How a command's label is emphasised.
#[derive(PartialEq, Eq, Structural, Clone, Copy, Debug)]
pub enum Emphasis {
    Bold,
    Dim,
}

/// The style a command's label is drawn with: emphasis and 0xRRGGBB color.
#[derive(PartialEq, Eq, Structural, Clone, Copy, Debug)]
pub struct CommandStyle {
    pub emphasis: Emphasis,
    pub color: u32,
}

pub struct CommandBar<'a> {
    pub command_bar_type: CommandBarType,
    command_list: CommandList<'a>,
    refresh_panel_active: bool,
    modify_workflow_state_active: bool,
    modify_assignee_active: bool,
    modify_project_active: bool,
    modify_cycle_active: bool,
    remove_view_active: bool,
}

/// Commands of a bar's own kind.
pub open spec fn matches_type(t: CommandBarType, cmd: Command) -> bool {
    match (t, cmd) {
        (CommandBarType::Dashboard, Command::Dashboard(_)) => true,
        (CommandBarType::ViewList, Command::ViewList(_)) => true,
        _ => false,
    }
}

/// The colors a command is drawn in when active and when inactive.
pub open spec fn command_colors(cmd: Command) -> (u32, u32) {
    match cmd {
        Command::Dashboard(DashboardCommand::RefreshPanel) => (colors::REFRESH_PANEL_CMD_ACTIVE, colors::REFRESH_PANEL_CMD_INACTIVE),
        Command::Dashboard(DashboardCommand::ModifyWorkflowState) => (colors::MODIFY_WORKFLOW_STATE_CMD_ACTIVE, colors::MODIFY_WORKFLOW_STATE_CMD_INACTIVE),
        Command::Dashboard(DashboardCommand::ModifyAssignee) => (colors::MODIFY_ASSIGNEE_CMD_ACTIVE, colors::MODIFY_ASSIGNEE_CMD_INACTIVE),
        Command::Dashboard(DashboardCommand::ModifyProject) => (colors::MODIFY_PROJECT_CMD_ACTIVE, colors::MODIFY_PROJECT_CMD_INACTIVE),
        Command::Dashboard(DashboardCommand::ModifyCycle) => (colors::MODIFY_CYCLE_CMD_ACTIVE, colors::MODIFY_CYCLE_CMD_INACTIVE),
        Command::ViewList(ViewListCommand::RemoveView) => (colors::DELETE_VIEW_CMD_ACTIVE, colors::DELETE_VIEW_CMD_INACTIVE),
    }
}

impl<'a> CommandBar<'a> {
    pub closed spec fn bar_type(&self) -> CommandBarType {
        self.command_bar_type
    }

    /// Whether a command of the bar is active.
    pub closed spec fn active(&self, cmd: Command) -> bool {
        match cmd {
            Command::Dashboard(DashboardCommand::RefreshPanel) => self.refresh_panel_active,
            Command::Dashboard(DashboardCommand::ModifyWorkflowState) => self.modify_workflow_state_active,
            Command::Dashboard(DashboardCommand::ModifyAssignee) => self.modify_assignee_active,
            Command::Dashboard(DashboardCommand::ModifyProject) => self.modify_project_active,
            Command::Dashboard(DashboardCommand::ModifyCycle) => self.modify_cycle_active,
            Command::ViewList(ViewListCommand::RemoveView) => self.remove_view_active,
        }
    }

    /// The commands the bar lists.
    pub closed spec fn listed(&self) -> Seq<CommandValue<'a>> {
        match self.command_bar_type {
            CommandBarType::Dashboard => self.command_list.dashboard@,
            CommandBarType::ViewList => self.command_list.view_list@,
        }
    }

    /// The style of a command: bold in its active color when active; when
    /// inactive, dim in its inactive color, except that the workflow state
    /// command stays bold.
    pub open spec fn style_of(&self, cmd: Command) -> CommandStyle {
        if self.active(cmd) {
            CommandStyle { emphasis: Emphasis::Bold, color: command_colors(cmd).0 }
        } else if cmd == Command::Dashboard(DashboardCommand::ModifyWorkflowState) {
            CommandStyle { emphasis: Emphasis::Bold, color: command_colors(cmd).1 }
        } else {
            CommandStyle { emphasis: Emphasis::Dim, color: command_colors(cmd).1 }
        }
    }

    /// A bar of the given kind with every command inactive, listing the
    /// dashboard's or the view list's commands of `CommandList::default`.
    pub fn with_type(cmd_bar_type: CommandBarType) -> (r: CommandBar<'static>)
        ensures
            r.bar_type() == cmd_bar_type,
            forall|c: Command| !r.active(c),
            cmd_bar_type == CommandBarType::Dashboard ==> r.listed().len() == 5
                && r.listed()[0].cmd_type == Command::Dashboard(DashboardCommand::RefreshPanel)
                && r.listed()[1].cmd_type == Command::Dashboard(DashboardCommand::ModifyWorkflowState)
                && r.listed()[2].cmd_type == Command::Dashboard(DashboardCommand::ModifyAssignee)
                && r.listed()[3].cmd_type == Command::Dashboard(DashboardCommand::ModifyProject)
                && r.listed()[4].cmd_type == Command::Dashboard(DashboardCommand::ModifyCycle),
            cmd_bar_type == CommandBarType::ViewList ==> r.listed().len() == 1
                && r.listed()[0].cmd_type == Command::ViewList(ViewListCommand::RemoveView),
            forall|i: int| 0 <= i < r.listed().len() ==> matches_type(cmd_bar_type, #[trigger] r.listed()[i].cmd_type),
    {
        CommandBar {
            command_bar_type: cmd_bar_type,
            command_list: CommandList::default(),
            refresh_panel_active: false,
            modify_workflow_state_active: false,
            modify_assignee_active: false,
            modify_project_active: false,
            modify_cycle_active: false,
            remove_view_active: false,
        }
    }

    /// Makes a command of the bar's own kind active or inactive; the other
    /// commands stay as they were.
    pub fn set_active(&mut self, cmd: Command, state: bool)
        requires
            matches_type(old(self).bar_type(), cmd),
        ensures
            final(self).active(cmd) == state,
            forall|c: Command| c != cmd ==> final(self).active(c) == old(self).active(c),
            final(self).bar_type() == old(self).bar_type(),
            final(self).listed() == old(self).listed(),
    {
        match cmd {
            Command::Dashboard(DashboardCommand::RefreshPanel) => self.refresh_panel_active = state,
            Command::Dashboard(DashboardCommand::ModifyWorkflowState) => self.modify_workflow_state_active = state,
            Command::Dashboard(DashboardCommand::ModifyAssignee) => self.modify_assignee_active = state,
            Command::Dashboard(DashboardCommand::ModifyProject) => self.modify_project_active = state,
            Command::Dashboard(DashboardCommand::ModifyCycle) => self.modify_cycle_active = state,
            Command::ViewList(ViewListCommand::RemoveView) => self.remove_view_active = state,
        }
    }

    pub fn set_refresh_panel_active(&mut self, state: bool)
        requires
            old(self).bar_type() == CommandBarType::Dashboard,
        ensures
            final(self).active(Command::Dashboard(DashboardCommand::RefreshPanel)) == state,
            forall|c: Command| c != Command::Dashboard(DashboardCommand::RefreshPanel) ==> final(self).active(c) == old(self).active(c),
            final(self).bar_type() == old(self).bar_type(),
            final(self).listed() == old(self).listed(),
    {
        self.set_active(Command::Dashboard(DashboardCommand::RefreshPanel), state);
    }

    pub fn set_modify_workflow_state_active(&mut self, state: bool)
        requires
            old(self).bar_type() == CommandBarType::Dashboard,
        ensures
            final(self).active(Command::Dashboard(DashboardCommand::ModifyWorkflowState)) == state,
            forall|c: Command| c != Command::Dashboard(DashboardCommand::ModifyWorkflowState) ==> final(self).active(c) == old(self).active(c),
            final(self).bar_type() == old(self).bar_type(),
            final(self).listed() == old(self).listed(),
    {
        self.set_active(Command::Dashboard(DashboardCommand::ModifyWorkflowState), state);
    }

    pub fn set_remove_view_active(&mut self, state: bool)
        requires
            old(self).bar_type() == CommandBarType::ViewList,
        ensures
            final(self).active(Command::ViewList(ViewListCommand::RemoveView)) == state,
            forall|c: Command| c != Command::ViewList(ViewListCommand::RemoveView) ==> final(self).active(c) == old(self).active(c),
            final(self).bar_type() == old(self).bar_type(),
            final(self).listed() == old(self).listed(),
    {
        self.set_active(Command::ViewList(ViewListCommand::RemoveView), state);
    }

    /// The style a command of this bar is drawn with.
    pub fn get_command_style(&self, cmd: &Command) -> (r: CommandStyle)
        requires
            matches_type(self.bar_type(), *cmd),
        ensures
            r == self.style_of(*cmd),
    {
        let (active, active_color, inactive_color) = match cmd {
            Command::Dashboard(DashboardCommand::RefreshPanel) =>
                (self.refresh_panel_active, colors::REFRESH_PANEL_CMD_ACTIVE, colors::REFRESH_PANEL_CMD_INACTIVE),
            Command::Dashboard(DashboardCommand::ModifyWorkflowState) =>
                (self.modify_workflow_state_active, colors::MODIFY_WORKFLOW_STATE_CMD_ACTIVE, colors::MODIFY_WORKFLOW_STATE_CMD_INACTIVE),
            Command::Dashboard(DashboardCommand::ModifyAssignee) =>
                (self.modify_assignee_active, colors::MODIFY_ASSIGNEE_CMD_ACTIVE, colors::MODIFY_ASSIGNEE_CMD_INACTIVE),
            Command::Dashboard(DashboardCommand::ModifyProject) =>
                (self.modify_project_active, colors::MODIFY_PROJECT_CMD_ACTIVE, colors::MODIFY_PROJECT_CMD_INACTIVE),
            Command::Dashboard(DashboardCommand::ModifyCycle) =>
                (self.modify_cycle_active, colors::MODIFY_CYCLE_CMD_ACTIVE, colors::MODIFY_CYCLE_CMD_INACTIVE),
            Command::ViewList(ViewListCommand::RemoveView) =>
                (self.remove_view_active, colors::DELETE_VIEW_CMD_ACTIVE, colors::DELETE_VIEW_CMD_INACTIVE),
        };
        if active {
            CommandStyle { emphasis: Emphasis::Bold, color: active_color }
        } else if *cmd == Command::Dashboard(DashboardCommand::ModifyWorkflowState) {
            CommandStyle { emphasis: Emphasis::Bold, color: inactive_color }
        } else {
            CommandStyle { emphasis: Emphasis::Dim, color: inactive_color }
        }
    }

    /// The bar's entries as they are drawn: the label of each listed
    /// command with its style, in order.
    pub fn render(&self) -> (r: Vec<(String, CommandStyle)>)
        requires
            forall|i: int| 0 <= i < self.listed().len() ==> matches_type(
                self.bar_type(),
                #[trigger] self.listed()[i].cmd_type,
            ),
        ensures
            r@.len() == self.listed().len(),
            forall|i: int| 0 <= i < r@.len() ==> (#[trigger] r@[i]).0@ == label_text(
                self.listed()[i].key_char,
                self.listed()[i].label@,
            ) && r@[i].1 == self.style_of(self.listed()[i].cmd_type),
    {
        let list = match self.command_bar_type {
            CommandBarType::Dashboard => &self.command_list.dashboard,
            CommandBarType::ViewList => &self.command_list.view_list,
        };
        let mut r: Vec<(String, CommandStyle)> = Vec::new();
        let mut i: usize = 0;
        while i < list.len()
            invariant
                list@ == self.listed(),
                forall|i: int| 0 <= i < self.listed().len() ==> matches_type(
                    self.bar_type(),
                    #[trigger] self.listed()[i].cmd_type,
                ),
                i <= list@.len(),
                r@.len() == i,
                forall|j: int| 0 <= j < i ==> (#[trigger] r@[j]).0@ == label_text(
                    self.listed()[j].key_char,
                    self.listed()[j].label@,
                ) && r@[j].1 == self.style_of(self.listed()[j].cmd_type),
            decreases list@.len() - i,
        {
            let e = &list[i];
            assert(matches_type(self.command_bar_type, self.listed()[i as int].cmd_type));
            let label = e.gen_label();
            let style = self.get_command_style(&e.cmd_type);
            r.push((label, style));
            i = i + 1;
        }
        r
    }
}

} // verus!
