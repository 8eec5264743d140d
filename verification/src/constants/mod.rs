//! Constants shared across the application.
pub mod table_columns;
pub mod command_list;

use vstd::prelude::*;

verus! {

/// Length of a Linear personal access token.
pub const LINEAR_TOKEN_LEN: u16 = 48;

/// Largest value of the paragraph scroll counter.
pub const SCROLL_TICK_MAX: u64 = 0xffff_ffff_ffff_ffff;

/// The ways an issue can be modified from the dashboard.
#[derive(PartialEq, Eq, Structural, Clone, Copy, Debug)]
pub enum IssueModificationOp {
    ModifyTitle,
    ModifyWorkflowState,
    ModifyAssignee,
    ModifyProject,
    ModifyCycle,
    ModifyTeam,
    ModifyLabels,
}

} // verus!
