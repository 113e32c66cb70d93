//! The latched input event: at most one event, visible for exactly one tick.
use vstd::prelude::*;

verus! {

/// crossterm's input event (a key press, a resize, ...): carried through the
/// latch unopened, so nothing is assumed of it.
#[verifier::external_type_specification]
#[verifier::external_body]
pub struct ExEvent(crossterm::event::Event);

/// The latch value after a tick on which `incoming` was polled (`None`: no
/// event, or the poll failed), starting from `current`.
///
/// A new event replaces whatever was held; a quiet tick leaves the latch
/// empty, whether or not it held a value before.
pub open spec fn latch_step(current: Option<crossterm::event::Event>, incoming: Option<crossterm::event::Event>) -> Option<crossterm::event::Event> {
    match incoming {
        Some(e) => Some(e),
        None => None,
    }
}

/// The input event of the current tick, if one arrived.
pub struct BackendEvent(pub Option<crossterm::event::Event>);

impl BackendEvent {
    /// An empty latch, as created at startup.
    pub fn new() -> (r: BackendEvent)
        ensures
            r.0.is_none(),
    {
        BackendEvent(None)
    }

    /// Refreshes the latch with the outcome of this tick's poll.
    pub fn refresh(&mut self, incoming: Option<crossterm::event::Event>)
        ensures
            final(self).0 == latch_step(old(self).0, incoming),
    {
        match (self.0.is_some(), incoming.is_some()) {
            (_, true) => self.0 = incoming,
            (true, false) => self.0 = None,
            _ => (),
        }
    }
}

/// A tick without input leaves the latch empty, so two quiet ticks in a row
/// leave it empty on the second even if it held an event before the first.
pub proof fn quiet_ticks_clear_latch(start: Option<crossterm::event::Event>)
    ensures
        latch_step(start, None).is_none(),
        latch_step(latch_step(start, None), None).is_none(),
{
}

/// A tick on which an event arrives latches exactly that event, replacing any
/// earlier value.
pub proof fn arrival_replaces_latch(current: Option<crossterm::event::Event>, e: crossterm::event::Event)
    ensures
        latch_step(current, Some(e)) == Some(e),
{
}

} // verus!
