//! The paint step of a tick.
use vstd::prelude::*;
use crate::compositor::{in_paint_order, ScopedWidget, WidgetsToDraw};
use crate::session::TerminalWrapper;

verus! {

/// Drains the queue and returns the units to paint this tick, in paint order.
/// The queue is emptied whatever happens next; once the session is closed
/// nothing more is painted.
pub fn frame_units<W, T>(queue: &mut WidgetsToDraw<W>, session: &TerminalWrapper<T>) -> (r: Vec<ScopedWidget<W>>)
    ensures
        final(queue).widgets@.len() == 0,
        session.spec_is_open() ==> in_paint_order(old(queue).widgets@, r@),
        !session.spec_is_open() ==> r@.len() == 0,
{
    let units = queue.drain_in_paint_order();
    if session.is_open() {
        units
    } else {
        Vec::new()
    }
}

} // verus!
