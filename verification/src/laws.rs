//! What holds of every run of the model.

use vstd::prelude::*;
use crate::model::{Event, FaultInfo, Position, State};

verus! {

/// A halted stub stays where it is, whatever the next event.
pub proof fn halted_is_terminal(pos: Position, event: Event)
    requires
        pos.spec_state() == State::Halted,
    ensures
        pos.spec_step(event) == pos,
{
}

/// After any one step the stub is halted: the entry point does no work of
/// its own.
pub proof fn every_step_halts(pos: Position, event: Event)
    ensures
        pos.spec_step(event).spec_state() == State::Halted,
{
}

/// The panic handler discards what it is handed: two faults that differ only
/// in their diagnostics lead to the same position.
pub proof fn fault_payload_is_discarded(pos: Position, a: FaultInfo, b: FaultInfo)
    ensures
        pos.spec_step(Event::Fault(a)) == pos.spec_step(Event::Fault(b)),
{
}

/// Once halted, the stub is at the same position after any sequence of
/// events: neither loop is ever left.
pub proof fn halted_stays_put(pos: Position, events: Seq<Event>)
    requires
        pos.spec_state() == State::Halted,
    ensures
        pos.spec_run(events) == pos,
    decreases events.len(),
{
    if events.len() > 0 {
        halted_stays_put(pos, events.drop_last());
    }
}

/// From boot, the first event alone decides where the stub ends up; it is
/// halted from then on.
pub proof fn first_event_decides(events: Seq<Event>)
    requires
        events.len() > 0,
    ensures
        Position::Entry.spec_run(events) == Position::Entry.spec_step(events[0]),
        Position::Entry.spec_run(events).spec_state() == State::Halted,
    decreases events.len(),
{
    let earlier = events.drop_last();
    if earlier.len() == 0 {
        assert(Position::Entry.spec_run(earlier) == Position::Entry);
    } else {
        first_event_decides(earlier);
        assert(earlier[0] == events[0]);
    }
}

/// A boot that no fault disturbs at its first step ends in the idle loop of
/// the entry point, however long it is watched and whatever is signalled
/// later.
pub proof fn undisturbed_boot_idles(events: Seq<Event>)
    requires
        events.len() > 0,
        events[0] is Advance,
    ensures
        Position::Entry.spec_run(events) == Position::IdleLoop,
{
    first_event_decides(events);
}

/// A fault at the first step of a boot ends in the loop of the panic
/// handler, which is not the idle loop of the entry point.
pub proof fn faulting_boot_panics(events: Seq<Event>)
    requires
        events.len() > 0,
        events[0] is Fault,
    ensures
        Position::Entry.spec_run(events) == Position::PanicLoop,
        Position::Entry.spec_run(events) != Position::IdleLoop,
{
    first_event_decides(events);
}

/// Watching a booted stub for longer shows nothing new: once the first event
/// has come, further events leave the position as it is.
pub proof fn settled_for_good(events: Seq<Event>, more: Seq<Event>)
    requires
        events.len() > 0,
    ensures
        Position::Entry.spec_run(events + more) == Position::Entry.spec_run(events),
{
    first_event_decides(events);
    first_event_decides(events + more);
    assert((events + more)[0] == events[0]);
}

} // verus!
