//! Pagination cursors of GraphQL connections.
use vstd::prelude::*;
use crate::app::Platform;

verus! {

/// Where a paginated GraphQL query stands: the platform it was issued to,
/// whether another page exists, and the cursor that ends the last page.
#[derive(Clone, Debug)]
pub struct GraphQLCursor {
    pub platform: Platform,
    pub has_next_page: bool,
    pub end_cursor: Option<String>,
}

impl GraphQLCursor {
    /// A cursor for `cursor_platform` before any page was fetched.
    pub fn with_platform(cursor_platform: Platform) -> (r: GraphQLCursor)
        ensures
            r.platform == cursor_platform,
            !r.has_next_page,
            r.end_cursor is None,
    {
        GraphQLCursor { platform: cursor_platform, has_next_page: false, end_cursor: None }
    }

    /// A copy of the cursor.
    pub fn duplicate(&self) -> (r: GraphQLCursor)
        ensures
            r == *self,
    {
        GraphQLCursor {
            platform: self.platform,
            has_next_page: self.has_next_page,
            end_cursor: match &self.end_cursor {
                Some(e) => Some(e.clone()),
                None => None,
            },
        }
    }
}

impl Default for GraphQLCursor {
    /// A cursor that has not been used for any platform yet.
    fn default() -> (r: GraphQLCursor)
        ensures
            r.platform == Platform::Na,
            !r.has_next_page,
            r.end_cursor is None,
    {
        GraphQLCursor::with_platform(Platform::Na)
    }
}

/// A cursor whose Linear query has returned its last page.
pub open spec fn exhausted(c: GraphQLCursor) -> bool {
    c.platform == Platform::Linear && !c.has_next_page
}

/// Whether the query behind `cursor` has no page left to fetch from Linear.
pub fn is_exhausted(cursor: &GraphQLCursor) -> (r: bool)
    ensures
        r == exhausted(*cursor),
{
    cursor.platform == Platform::Linear && !cursor.has_next_page
}

} // verus!
