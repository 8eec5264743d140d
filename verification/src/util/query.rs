//! Query variables derived from pagination cursors and configuration.
use vstd::prelude::*;
use crate::app::Platform;
use crate::errors::ConfigError;
use crate::linear::config::LinearConfig;
use crate::linear::error::LinearClientError;
use crate::util::cursor::GraphQLCursor;

verus! {

/// The `after` cursor to send to Linear: the end of the last page, when the
/// cursor is Linear's and another page exists.
pub open spec fn linear_after(cursor_opt: Option<GraphQLCursor>) -> Option<Seq<char>> {
    match cursor_opt {
        Some(c) => if c.platform == Platform::Linear && c.has_next_page {
            match c.end_cursor {
                Some(e) => Some(e@),
                None => None,
            }
        } else {
            None
        },
        None => None,
    }
}

pub fn linear_after_from_opt(cursor_opt: &Option<GraphQLCursor>) -> (r: Option<String>)
    ensures
        r matches Some(s) ==> linear_after(*cursor_opt) == Some(s@),
        r is None <==> linear_after(*cursor_opt) is None,
{
    if let Some(cursor_data) = cursor_opt {
        if cursor_data.platform == Platform::Linear && cursor_data.has_next_page {
            match &cursor_data.end_cursor {
                Some(e) => Some(e.clone()),
                None => None,
            }
        } else {
            None
        }
    } else {
        None
    }
}

/// A cursor may be used for a Linear request when it is Linear's own or has
/// not been used yet.
pub open spec fn cursor_usable_for_linear(cursor_opt: Option<GraphQLCursor>) -> bool {
    match cursor_opt {
        Some(c) => c.platform == Platform::Linear || c.platform == Platform::Na,
        None => true,
    }
}

/// Checks that a cursor may be sent along with a Linear request; a cursor
/// of another platform is handed back as the error.
pub fn check_linear_cursor(cursor_opt: &Option<GraphQLCursor>) -> (r: Result<(), GraphQLCursor>)
    ensures
        r is Ok <==> cursor_usable_for_linear(*cursor_opt),
        r matches Err(c) ==> cursor_opt matches Some(d) && c.platform == d.platform
            && c.has_next_page == d.has_next_page,
{
    if let Some(cursor_data) = cursor_opt {
        if cursor_data.platform != Platform::Linear && cursor_data.platform != Platform::Na {
            return Err(cursor_data.duplicate());
        }
    }
    Ok(())
}

/// The API key of the configuration, or the error that Linear credentials
/// are missing.
pub fn verify_linear_api_key_present(linear_config: &LinearConfig) -> (r: Result<String, LinearClientError>)
    ensures
        linear_config.api_key matches Some(k) ==> (r matches Ok(s) && s@ == k@),
        linear_config.api_key is None ==> (r matches Err(LinearClientError::InvalidConfig(
            ConfigError::CredentialsNotFound { platform },
        )) && platform@ == "Linear"@),
{
    match &linear_config.api_key {
        Some(x) => Ok(x.clone()),
        None => Err(LinearClientError::InvalidConfig(
            ConfigError::CredentialsNotFound { platform: String::from_str("Linear") },
        )),
    }
}

} // verus!
