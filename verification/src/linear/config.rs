//! Settings of the Linear client: the access token and the page sizes of
//! its queries.
use vstd::prelude::*;
use crate::constants::LINEAR_TOKEN_LEN;
use crate::util::number::{parse_u32, parsed_u32};
use crate::util::text::{display_width, str_width};

verus! {

pub const MAX_PAGE_SIZE: u32 = 50;
pub const DEFAULT_LINEAR_ISSUE_PAGE_SIZE: u32 = 50;
pub const DEFAULT_LINEAR_VIEW_PANEL_PAGE_SIZE: u32 = 50;
pub const DEFAULT_LINEAR_ISSUE_OP_PAGE_SIZE: u32 = 50;
pub const DEFAULT_LINEAR_CUSTOM_VIEW_PAGE_SIZE: u32 = 50;
pub const DEFAULT_LINEAR_TEAM_TIMEZONE_PAGE_SIZE: u32 = 50;
pub const DEFAULT_LINEAR_DUE_SOON_DAY_THRESHOLD: u32 = 5;

pub struct LinearConfig {
    pub is_valid_token: bool,
    pub api_key: Option<String>,
    /// The viewer object, as the JSON text it is cached in.
    pub viewer_object: Option<String>,
    pub issue_page_size: u32,
    pub view_panel_page_size: u32,
    pub issue_op_page_size: u32,
    pub custom_view_page_size: u32,
    pub team_timezone_page_size: u32,
    pub due_soon_day_threshold: u32,
}

/// The files the client caches its data in.
#[derive(PartialEq, Eq, Structural, Clone, Copy, Debug)]
pub enum CachedDataFile {
    AccessToken,
    ViewerObject,
    ViewList,
}

/// A setting read from the environment: its value when it reads as a
/// `u32`, the default otherwise.
pub open spec fn setting_value(value: Option<Seq<char>>, default: u32) -> u32 {
    match value {
        Some(v) => match parsed_u32(v) {
            Some(x) => x,
            None => default,
        },
        None => default,
    }
}

pub open spec fn opt_view(v: Option<&str>) -> Option<Seq<char>> {
    match v {
        Some(s) => Some(s@),
        None => None,
    }
}

pub fn setting_from_env_value(value: Option<&str>, default: u32) -> (r: u32)
    ensures
        r == setting_value(opt_view(value), default),
{
    match value {
        Some(x) => match parse_u32(x) {
            Some(v) => v,
            None => default,
        },
        None => default,
    }
}

/// A token is accepted when its display width, taken as a `u16`, is the
/// length of a Linear access token.
pub open spec fn token_len_ok(token: Seq<char>) -> bool {
    (display_width(token) as u16) == LINEAR_TOKEN_LEN
}

pub fn is_token_len_valid(token: &str) -> (r: bool)
    ensures
        r == token_len_ok(token@),
{
    let token_len: u16 = str_width(token) as u16;
    token_len == LINEAR_TOKEN_LEN
}

impl LinearConfig {
    /// A configuration without a token, whose settings come from the
    /// environment values given (issue, view panel, issue modification,
    /// custom view and team time zone page sizes, then the due-soon
    /// threshold), each falling back to its default.
    pub fn from_env_values(
        issue_page_size: Option<&str>,
        view_panel_page_size: Option<&str>,
        issue_op_page_size: Option<&str>,
        custom_view_page_size: Option<&str>,
        team_timezone_page_size: Option<&str>,
        due_soon_day_threshold: Option<&str>,
    ) -> (r: LinearConfig)
        ensures
            !r.is_valid_token,
            r.api_key is None,
            r.viewer_object is None,
            r.issue_page_size == setting_value(opt_view(issue_page_size), DEFAULT_LINEAR_ISSUE_PAGE_SIZE),
            r.view_panel_page_size == setting_value(opt_view(view_panel_page_size), DEFAULT_LINEAR_VIEW_PANEL_PAGE_SIZE),
            r.issue_op_page_size == setting_value(opt_view(issue_op_page_size), DEFAULT_LINEAR_ISSUE_OP_PAGE_SIZE),
            r.custom_view_page_size == setting_value(opt_view(custom_view_page_size), DEFAULT_LINEAR_CUSTOM_VIEW_PAGE_SIZE),
            r.team_timezone_page_size == setting_value(opt_view(team_timezone_page_size), DEFAULT_LINEAR_TEAM_TIMEZONE_PAGE_SIZE),
            r.due_soon_day_threshold == setting_value(opt_view(due_soon_day_threshold), DEFAULT_LINEAR_DUE_SOON_DAY_THRESHOLD),
    {
        LinearConfig {
            is_valid_token: false,
            api_key: None,
            viewer_object: None,
            issue_page_size: setting_from_env_value(issue_page_size, DEFAULT_LINEAR_ISSUE_PAGE_SIZE),
            view_panel_page_size: setting_from_env_value(view_panel_page_size, DEFAULT_LINEAR_VIEW_PANEL_PAGE_SIZE),
            issue_op_page_size: setting_from_env_value(issue_op_page_size, DEFAULT_LINEAR_ISSUE_OP_PAGE_SIZE),
            custom_view_page_size: setting_from_env_value(custom_view_page_size, DEFAULT_LINEAR_CUSTOM_VIEW_PAGE_SIZE),
            team_timezone_page_size: setting_from_env_value(team_timezone_page_size, DEFAULT_LINEAR_TEAM_TIMEZONE_PAGE_SIZE),
            due_soon_day_threshold: setting_from_env_value(due_soon_day_threshold, DEFAULT_LINEAR_DUE_SOON_DAY_THRESHOLD),
        }
    }

    /// Takes a token read from the token cache file: a token of the wrong
    /// length is refused and changes nothing; otherwise it becomes the API
    /// key and is marked valid.
    pub fn accept_cached_token(&mut self, token: String) -> (r: bool)
        ensures
            r == token_len_ok(token@),
            r ==> final(self).is_valid_token && (final(self).api_key matches Some(k) && k@ == token@),
            !r ==> final(self).is_valid_token == old(self).is_valid_token && final(self).api_key == old(self).api_key,
            final(self).viewer_object == old(self).viewer_object,
            final(self).issue_page_size == old(self).issue_page_size,
            final(self).view_panel_page_size == old(self).view_panel_page_size,
            final(self).issue_op_page_size == old(self).issue_op_page_size,
            final(self).custom_view_page_size == old(self).custom_view_page_size,
            final(self).team_timezone_page_size == old(self).team_timezone_page_size,
            final(self).due_soon_day_threshold == old(self).due_soon_day_threshold,
    {
        if !is_token_len_valid(token.as_str()) {
            return false;
        }
        self.is_valid_token = true;
        self.api_key = Some(token);
        true
    }

    /// Records a token that was just saved as the API key, marked valid.
    pub fn set_access_token(&mut self, token: &str)
        ensures
            final(self).is_valid_token,
            final(self).api_key matches Some(k) && k@ == token@,
            final(self).viewer_object == old(self).viewer_object,
            final(self).issue_page_size == old(self).issue_page_size,
            final(self).view_panel_page_size == old(self).view_panel_page_size,
            final(self).issue_op_page_size == old(self).issue_op_page_size,
            final(self).custom_view_page_size == old(self).custom_view_page_size,
            final(self).team_timezone_page_size == old(self).team_timezone_page_size,
            final(self).due_soon_day_threshold == old(self).due_soon_day_threshold,
    {
        self.api_key = Some(token.to_owned());
        self.is_valid_token = true;
    }

    /// The name of the file a kind of cached data is kept in.
    pub fn cached_file_name(data_file: CachedDataFile) -> (r: &'static str)
        ensures
            data_file == CachedDataFile::AccessToken ==> r@ == "config.txt"@,
            data_file == CachedDataFile::ViewerObject ==> r@ == "viewer.txt"@,
            data_file == CachedDataFile::ViewList ==> r@ == "view_list.txt"@,
    {
        match data_file {
            CachedDataFile::AccessToken => "config.txt",
            CachedDataFile::ViewerObject => "viewer.txt",
            CachedDataFile::ViewList => "view_list.txt",
        }
    }
}

} // verus!
