//! Colors of the interface, as 0xRRGGBB values.
use vstd::prelude::*;

verus! {

pub const CUSTOM_VIEW_SELECT_TABLE_TITLE: u32 = 0xFFFFFF;
pub const DASHBOARD_VIEW_LIST_TABLE_TITLE: u32 = 0xFFFFFF;
pub const API_REQ_NUM: u32 = 0xADFC03;

// Command bar colors: green
pub const ADD_VIEW_CMD_ACTIVE: u32 = 0x34E31C;
pub const ADD_VIEW_CMD_INACTIVE: u32 = 0x27AA15;

// purple
pub const REPLACE_VIEW_CMD_ACTIVE: u32 = 0x6B53FA;
pub const REPLACE_VIEW_CMD_INACTIVE: u32 = 0x2807F2;

// red
pub const DELETE_VIEW_CMD_ACTIVE: u32 = 0xB80404;
pub const DELETE_VIEW_CMD_INACTIVE: u32 = 0x8A0303;

// teal (25% darker when inactive)
pub const REFRESH_PANEL_CMD_ACTIVE: u32 = 0x51C1B1;
pub const REFRESH_PANEL_CMD_INACTIVE: u32 = 0x359789;

// orange (25% darker when inactive)
pub const MODIFY_WORKFLOW_STATE_CMD_ACTIVE: u32 = 0xFC8404;
pub const MODIFY_WORKFLOW_STATE_CMD_INACTIVE: u32 = 0xBD6302;

// blue (25% darker when inactive)
pub const MODIFY_ASSIGNEE_CMD_ACTIVE: u32 = 0x4A90E2;
pub const MODIFY_ASSIGNEE_CMD_INACTIVE: u32 = 0x2070CC;

// magenta (25% darker when inactive)
pub const MODIFY_PROJECT_CMD_ACTIVE: u32 = 0xD84AE2;
pub const MODIFY_PROJECT_CMD_INACTIVE: u32 = 0xB620C2;

// yellow (25% darker when inactive)
pub const MODIFY_CYCLE_CMD_ACTIVE: u32 = 0xE2D84A;
pub const MODIFY_CYCLE_CMD_INACTIVE: u32 = 0xC2B620;

} // verus!
