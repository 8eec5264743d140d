//! The spinner shown beside a table title while its data loads.
use vstd::prelude::*;

verus! {

/// Number of spinner frames.
pub const LOADER_STATE_MAX: u16 = 3u16;

/// The spinner glyph: a check mark once loading is over, otherwise the frame
/// of the spinner for `state`.
pub open spec fn loader_glyph(loading: bool, state: u16) -> char {
    if !loading {
        '✓'
    } else if state == 0 {
        '◐'
    } else if state == 1 {
        '◓'
    } else {
        '◑'
    }
}

pub fn loader_from_state(loading: bool, state: u16) -> (r: char)
    requires
        loading ==> state < LOADER_STATE_MAX,
    ensures
        r == loader_glyph(loading, state),
{
    if !loading {
        return '✓';
    }
    match state {
        0 => '◐',
        1 => '◓',
        _ => '◑',
    }
}

} // verus!
