//! The list of teams to choose from: one entry per team that has both a
//! name and a key.
use vstd::prelude::*;
use crate::linear::types::Team;
use crate::util::state_list::ListState;
use crate::util::text::{push_char, views};

verus! {

/// The entry of a team: its name, four spaces and its key; none for a team
/// missing either.
pub open spec fn team_item(t: Team) -> Option<Seq<char>> {
    match (t.name, t.key) {
        (Some(n), Some(k)) => Some(n@ + seq![' ', ' ', ' ', ' '] + k@),
        _ => None,
    }
}

/// The entries of the teams that have one, in order.
pub open spec fn team_items(teams: Seq<Team>) -> Seq<Seq<char>>
    decreases teams.len(),
{
    if teams.len() == 0 {
        Seq::<Seq<char>>::empty()
    } else {
        let prev = team_items(teams.drop_last());
        match team_item(teams.last()) {
            Some(item) => prev.push(item),
            None => prev,
        }
    }
}

/// The teams to choose from, with the selection.
pub struct LinearTeamSelectState {
    pub teams_data: Option<Vec<Team>>,
    pub teams_state: ListState,
}

impl Default for LinearTeamSelectState {
    fn default() -> (r: LinearTeamSelectState)
        ensures
            r.teams_data matches Some(v) && v@.len() == 0,
            r.teams_state.selected is None,
    {
        LinearTeamSelectState { teams_data: Some(Vec::new()), teams_state: ListState::default() }
    }
}

fn team_item_of(t: &Team) -> (r: Option<String>)
    ensures
        match team_item(*t) {
            Some(item) => r matches Some(s) && s@ == item,
            None => r is None,
        },
{
    match (&t.name, &t.key) {
        (Some(n), Some(k)) => {
            let mut s = n.clone();
            push_char(&mut s, ' ');
            push_char(&mut s, ' ');
            push_char(&mut s, ' ');
            push_char(&mut s, ' ');
            s.append(k.as_str());
            assert(s@ =~= n@ + seq![' ', ' ', ' ', ' '] + k@);
            Some(s)
        },
        _ => None,
    }
}

impl LinearTeamSelectState {
    /// The entries of the loaded teams (see `team_items`); an error when no
    /// teams were loaded.
    pub fn get_rendered_teams_data(teams: &Option<Vec<Team>>) -> (r: Result<Vec<String>, &'static str>)
        ensures
            r is Err <==> teams is None,
            r matches Err(m) ==> m@ == "Stateful List not populated"@,
            r matches Ok(items) ==> teams matches Some(ts) && views(items@) == team_items(ts@),
    {
        let ts = match teams {
            Some(x) => x,
            None => {
                return Err("Stateful List not populated");
            },
        };
        let mut items: Vec<String> = Vec::new();
        let mut k: usize = 0;
        while k < ts.len()
            invariant
                k <= ts@.len(),
                views(items@) == team_items(ts@.take(k as int)),
            decreases ts@.len() - k,
        {
            assert(ts@.take(k as int + 1).drop_last() =~= ts@.take(k as int));
            match team_item_of(&ts[k]) {
                Some(s) => {
                    items.push(s);
                    assert(views(items@) =~= team_items(ts@.take(k as int)).push(s@));
                },
                None => {},
            }
            k = k + 1;
        }
        assert(ts@.take(ts@.len() as int) =~= ts@);
        Ok(items)
    }
}

} // verus!
