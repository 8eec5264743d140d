//! Terminal input events and the decision made for each key press.
use vstd::prelude::*;
use crate::command::Key;
use crate::constants::SCROLL_TICK_MAX;
use crate::util::loader::LOADER_STATE_MAX;

verus! {

/// What the input and tick sources hand to the main loop.
#[derive(PartialEq, Eq, Structural, Clone, Copy, Debug)]
pub enum Event<I> {
    Input(I),
    Tick,
    Quit,
}

/// Whether a key press also ends the input stream: it does when it is the exit
/// key and the exit key is not being ignored (as it is while text is entered).
pub open spec fn ends_input(key: Key, exit_key: Key, ignore_exit_key: bool) -> bool {
    !ignore_exit_key && key == exit_key
}

/// The events sent for one key press: the key itself, then `Quit` when the
/// press ends the input stream.
pub fn key_press_events(key: Key, exit_key: Key, ignore_exit_key: bool) -> (r: Vec<Event<Key>>)
    ensures
        ends_input(key, exit_key, ignore_exit_key) ==> r@ == seq![Event::Input(key), Event::<Key>::Quit],
        !ends_input(key, exit_key, ignore_exit_key) ==> r@ == seq![Event::Input(key)],
{
    let mut r: Vec<Event<Key>> = Vec::new();
    r.push(Event::Input(key));
    if !ignore_exit_key && key == exit_key {
        r.push(Event::Quit);
    }
    r
}

/// What the main loop counts between events: events since the last
/// command (up to a bound), the loader's frame and the scroll tick.
pub struct LoopCounters {
    pub idle: u64,
    pub loader_tick: u16,
    pub scroll_tick: u64,
}

/// The counters within their ranges.
pub open spec fn counters_ok(c: LoopCounters) -> bool {
    &&& c.loader_tick < LOADER_STATE_MAX
    &&& c.scroll_tick < SCROLL_TICK_MAX
    &&& c.idle < u64::MAX
}

impl LoopCounters {
    pub fn new() -> (r: LoopCounters)
        ensures
            r.idle == 0 && r.loader_tick == 0 && r.scroll_tick == 0,
    {
        LoopCounters { idle: 0, loader_tick: 0, scroll_tick: 0 }
    }

    /// A tick: the loader's frame and the scroll tick advance, each starting
    /// over after its last value, and events since the last command are
    /// counted up to 100.
    pub fn on_tick(&mut self)
        requires
            counters_ok(*old(self)),
        ensures
            counters_ok(*final(self)),
            final(self).loader_tick == if old(self).loader_tick == LOADER_STATE_MAX - 1 { 0 } else { old(self).loader_tick + 1 },
            final(self).scroll_tick == if old(self).scroll_tick == SCROLL_TICK_MAX - 1 { 0 } else { old(self).scroll_tick + 1 },
            final(self).idle == if old(self).idle < 100 { old(self).idle + 1 } else { old(self).idle as int },
    {
        if self.loader_tick == LOADER_STATE_MAX - 1 {
            self.loader_tick = 0;
        } else {
            self.loader_tick = self.loader_tick + 1;
        }
        if self.scroll_tick == SCROLL_TICK_MAX - 1 {
            self.scroll_tick = 0;
        } else {
            self.scroll_tick = self.scroll_tick + 1;
        }
        if self.idle < 100 {
            self.idle = self.idle + 1;
        }
    }

    /// A key press: one that made a command starts the count over and
    /// clears the command text; another one is counted, and from the fourth
    /// event without a command on the command text is cleared.
    pub fn on_key(&mut self, cmd_str: &mut String, made_command: bool)
        requires
            counters_ok(*old(self)),
            old(self).idle < u64::MAX - 1,
        ensures
            final(self).loader_tick == old(self).loader_tick,
            final(self).scroll_tick == old(self).scroll_tick,
            made_command ==> final(self).idle == 0 && final(cmd_str)@.len() == 0,
            !made_command ==> final(self).idle == old(self).idle + 1
                && final(cmd_str)@ == if old(self).idle + 1 >= 4 { Seq::<char>::empty() } else { old(cmd_str)@ },
    {
        if made_command {
            self.idle = 0;
            *cmd_str = String::new();
        } else {
            self.idle = self.idle + 1;
            if self.idle >= 4 {
                *cmd_str = String::new();
            }
        }
    }
}

} // verus!
