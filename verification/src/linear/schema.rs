//! The GraphQL operations sent to Linear, one marker type each.  The query
//! text of each operation is kept beside the program, under `gql/linear/`.
use vstd::prelude::*;

verus! {

/// Fetches the organization's custom views (`custom_views.graphql`).
pub struct ViewQuery;

/// Fetches the authenticated user (`viewer.graphql`).
pub struct ViewerQuery;

/// Fetches a team's cycles (`cycles.graphql`).
pub struct CyclesQuery;

/// Fetches a team's projects (`team_projects.graphql`).
pub struct TeamProjectsQuery;

/// Fetches a team's members (`team_members.graphql`).
pub struct TeamMembersQuery;

/// Fetches a team's workflow states (`states.graphql`).
pub struct StatesQuery;

/// Updates one issue (`issue_update.graphql`).
pub struct IssueUpdateMut;

/// Fetches issues by filter (`issues.graphql`).
pub struct IssuesQuery;

} // verus!
