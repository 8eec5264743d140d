//! The entry box in which the Linear access token is typed.
use vstd::prelude::*;
use crate::components::user_input::UserInput;

verus! {

#[derive(PartialEq, Eq, Structural, Clone, Copy, Debug)]
pub enum TokenValidationState {
    Null,
    Invalid,
    Validating,
    Valid,
}

pub struct TokenEntry {
    pub input: UserInput,
    pub token_validation_state: TokenValidationState,
}

/// One to three dots, cycling with the loader tick.
pub open spec fn dots(loader_tick: u16) -> Seq<char> {
    if loader_tick % 3 == 0 {
        "."@
    } else if loader_tick % 3 == 1 {
        ".."@
    } else {
        "..."@
    }
}

/// The status line shown beside the entry box, if any.
pub open spec fn token_status_text(state: TokenValidationState, loader_tick: u16) -> Option<Seq<char>> {
    match state {
        TokenValidationState::Null => None,
        TokenValidationState::Invalid => Some("\nInvalid Linear Access Token"@),
        TokenValidationState::Validating => Some("\nValidating"@ + dots(loader_tick)),
        TokenValidationState::Valid => Some("\nValidated"@),
    }
}

impl TokenEntry {
    /// The help line shown above the entry box.
    pub fn gen_help_msg(&self) -> (r: String)
        ensures
            r@ == "Press Enter to submit token"@,
    {
        String::from_str("Press Enter to submit token")
    }

    /// The status line for the current validation state.
    pub fn gen_status_msg(&self, loader_tick: u16) -> (r: Option<String>)
        ensures
            r matches Some(s) ==> token_status_text(self.token_validation_state, loader_tick) == Some(s@),
            r is None <==> token_status_text(self.token_validation_state, loader_tick) is None,
    {
        match self.token_validation_state {
            TokenValidationState::Null => None,
            TokenValidationState::Invalid => Some(String::from_str("\nInvalid Linear Access Token")),
            TokenValidationState::Validating => {
                let s = String::from_str("\nValidating");
                let d = if loader_tick % 3 == 0 {
                    "."
                } else if loader_tick % 3 == 1 {
                    ".."
                } else {
                    "..."
                };
                Some(s.concat(d))
            },
            TokenValidationState::Valid => Some(String::from_str("\nValidated")),
        }
    }
}

impl Default for TokenEntry {
    fn default() -> (r: TokenEntry)
        ensures
            r.input.input@ == Seq::<char>::empty(),
            r.input.is_secret,
            r.input.cursor_offset == 1,
            r.token_validation_state == TokenValidationState::Null,
    {
        TokenEntry { input: UserInput::new(true), token_validation_state: TokenValidationState::Null }
    }
}

} // verus!
