//! The entry box in which an issue's new title is typed.
use vstd::prelude::*;
use crate::components::user_input::UserInput;

verus! {

#[derive(PartialEq, Eq, Structural, Clone, Copy, Debug)]
pub enum TitleValidationState {
    Null,
    Invalid,
    Validating,
    Valid,
}

pub struct TitleEntry {
    pub input: UserInput,
    pub title_validation_state: TitleValidationState,
}

/// The status line shown beside the entry box for a validation state.
pub open spec fn title_status_text(state: TitleValidationState) -> Seq<char> {
    match state {
        TitleValidationState::Null => Seq::empty(),
        TitleValidationState::Invalid => "\nInvalid Issue Title"@,
        TitleValidationState::Validating => "\nValidating"@,
        TitleValidationState::Valid => "\nValidated"@,
    }
}

impl TitleEntry {
    /// The help line shown above the entry box.
    pub fn gen_help_msg(&self) -> (r: String)
        ensures
            r@ == "Press Enter to submit title"@,
    {
        String::from_str("Press Enter to submit title")
    }

    /// The status line for the current validation state.
    pub fn gen_status_msg(&self) -> (r: String)
        ensures
            r@ == title_status_text(self.title_validation_state),
    {
        match self.title_validation_state {
            TitleValidationState::Null => String::new(),
            TitleValidationState::Invalid => String::from_str("\nInvalid Issue Title"),
            TitleValidationState::Validating => String::from_str("\nValidating"),
            TitleValidationState::Valid => String::from_str("\nValidated"),
        }
    }
}

impl Default for TitleEntry {
    fn default() -> (r: TitleEntry)
        ensures
            r.input.input@ == Seq::<char>::empty(),
            !r.input.is_secret,
            r.input.cursor_offset == 1,
            r.title_validation_state == TitleValidationState::Null,
    {
        TitleEntry { input: UserInput::new(false), title_validation_state: TitleValidationState::Null }
    }
}

} // verus!
