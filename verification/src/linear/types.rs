//! The Linear objects the dashboard shows and modifies.
use vstd::prelude::*;

verus! {

#[derive(Clone, Debug)]
pub struct Organization {
    pub id: String,
    pub name: String,
}

#[derive(Clone, Debug)]
pub struct Team {
    pub id: String,
    pub name: Option<String>,
    pub key: Option<String>,
    pub description: Option<String>,
}

#[derive(Clone, Debug)]
pub struct WorkflowState {
    pub id: String,
    pub name: String,
    pub state_type: String,
    pub color: String,
    pub description: Option<String>,
}

#[derive(Clone, Debug)]
pub struct User {
    pub id: String,
    pub name: Option<String>,
    pub display_name: Option<String>,
}

#[derive(Clone, Debug)]
pub struct Project {
    pub id: String,
    pub name: Option<String>,
    pub color: Option<String>,
    pub state: Option<String>,
}

#[derive(Clone, Debug)]
pub struct Cycle {
    pub id: String,
    pub name: Option<String>,
    pub number: i64,
    pub starts_at: String,
    pub ends_at: String,
}

impl Default for Cycle {
    fn default() -> (r: Cycle)
        ensures
            r.id@ == Seq::<char>::empty(),
            r.name is None,
            r.number == 0,
            r.starts_at@ == Seq::<char>::empty(),
            r.ends_at@ == Seq::<char>::empty(),
    {
        Cycle { id: String::new(), name: None, number: 0, starts_at: String::new(), ends_at: String::new() }
    }
}

#[derive(Clone, Debug)]
pub struct Label {
    pub id: String,
    pub name: Option<String>,
    pub color: Option<String>,
}

/// An object an issue can be related to by a modification.
#[derive(Clone, Debug)]
pub enum IssueRelatableObject {
    WorkflowState(WorkflowState),
    Assignee(User),
    Project(Project),
    Cycle(Cycle),
}

#[derive(Clone, Debug)]
pub struct Issue {
    pub id: String,
    pub created_at: String,
    pub number: i64,
    pub due_date: Option<String>,
    pub title: String,
    pub description: Option<String>,
    pub priority: i64,
    pub estimate: Option<String>,
    pub team: Team,
    pub state: WorkflowState,
    pub creator: Option<User>,
    pub assignee: Option<User>,
    pub labels: Vec<Label>,
    pub cycle: Cycle,
    pub project: Option<Project>,
    pub subscribers: Vec<User>,
}

/// A custom view of Linear as the dashboard keeps it: its id, what the view
/// lists show of it (name, description, color, organization name, team
/// key) and its issue filter, as the JSON text Linear sends.
#[derive(Debug)]
pub struct CustomView {
    pub id: String,
    pub name: String,
    pub description: Option<String>,
    pub color: Option<String>,
    pub organization: Option<String>,
    pub team_key: Option<String>,
    pub filter_data: String,
}

fn clone_text(s: &Option<String>) -> (r: Option<String>)
    ensures
        r == *s,
{
    match s {
        Some(t) => Some(t.clone()),
        None => None,
    }
}

impl Clone for CustomView {
    /// A copy equal to the view.
    fn clone(&self) -> (r: CustomView)
        ensures
            r == *self,
    {
        CustomView {
            id: self.id.clone(),
            name: self.name.clone(),
            description: clone_text(&self.description),
            color: clone_text(&self.color),
            organization: clone_text(&self.organization),
            team_key: clone_text(&self.team_key),
            filter_data: self.filter_data.clone(),
        }
    }
}

/// The label naming who is signed in: the viewer's display name, a dash and
/// the organization's name.
pub fn viewer_label(display_name: &str, organization_name: &str) -> (r: String)
    ensures
        r@ == display_name@ + seq![' ', '-', ' '] + organization_name@,
{
    let mut r = String::from_str(display_name);
    r.append(" - ");
    proof {
        reveal_strlit(" - ");
    }
    r.append(organization_name);
    assert(r@ =~= display_name@ + seq![' ', '-', ' '] + organization_name@);
    r
}

} // verus!
