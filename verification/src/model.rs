//! Where the processor is, and what moves it.

use vstd::prelude::*;

verus! {

/// The two states of the stub. `Running` is the initial state; `Halted` is
/// terminal.
#[derive(Clone, Copy, Debug, PartialEq, Eq, Structural)]
pub enum State {
    Running,
    Halted,
}

/// The code the instruction pointer is in.
#[derive(Clone, Copy, Debug, PartialEq, Eq, Structural)]
pub enum Position {
    /// In the entry point, ahead of its idle loop.
    Entry,
    /// In the idle loop of the entry point.
    IdleLoop,
    /// In the loop of the panic handler.
    PanicLoop,
}

/// The place in the source at which a fault was raised.
#[derive(Clone, Debug)]
pub struct SourceLocation {
    pub file: String,
    pub line: u32,
    pub column: u32,
}

/// The diagnostics that the environment hands to the panic handler. Either
/// part may be missing.
#[derive(Clone, Debug)]
pub struct FaultInfo {
    pub location: Option<SourceLocation>,
    pub message: Option<String>,
}

/// What one step of execution brings.
#[derive(Clone, Debug)]
pub enum Event {
    /// Execution goes on undisturbed.
    Advance,
    /// The environment reports an unrecoverable fault.
    Fault(FaultInfo),
}

impl Position {
    /// The state that the stub is in at this position: running at the entry,
    /// halted in either loop.
    pub open spec fn spec_state(self) -> State {
        match self {
            Position::Entry => State::Running,
            Position::IdleLoop => State::Halted,
            Position::PanicLoop => State::Halted,
        }
    }

    /// The position after one event. A halted stub does not move. A running
    /// one falls into the idle loop, or is taken to the panic handler by a
    /// fault, whatever diagnostics come with it.
    pub open spec fn spec_step(self, event: Event) -> Position {
        if self.spec_state() == State::Halted {
            self
        } else if event is Fault {
            Position::PanicLoop
        } else {
            Position::IdleLoop
        }
    }

    /// The position after a sequence of events, taken one after another.
    pub open spec fn spec_run(self, events: Seq<Event>) -> Position
        decreases events.len(),
    {
        if events.len() == 0 {
            self
        } else {
            self.spec_run(events.drop_last()).spec_step(events.last())
        }
    }

    /// The position at which the boot loader hands over control.
    pub fn boot() -> (pos: Position)
        ensures
            pos == Position::Entry,
            pos.spec_state() == State::Running,
    {
        Position::Entry
    }

    /// The state that the stub is in at this position.
    #[verifier::when_used_as_spec(spec_state)]
    pub fn state(self) -> (s: State)
        ensures
            s == self.spec_state(),
    {
        match self {
            Position::Entry => State::Running,
            Position::IdleLoop => State::Halted,
            Position::PanicLoop => State::Halted,
        }
    }

    /// Takes one step.
    pub fn step(self, event: &Event) -> (next: Position)
        ensures
            next == self.spec_step(*event),
    {
        match self {
            Position::Entry => match event {
                Event::Advance => Position::IdleLoop,
                Event::Fault(_) => Position::PanicLoop,
            },
            Position::IdleLoop => Position::IdleLoop,
            Position::PanicLoop => Position::PanicLoop,
        }
    }

    /// Takes one step for each event, in order.
    pub fn run(self, events: &[Event]) -> (end: Position)
        ensures
            end == self.spec_run(events@),
    {
        let mut pos = self;
        let mut i: usize = 0;
        while i < events.len()
            invariant
                i <= events@.len(),
                pos == self.spec_run(events@.take(i as int)),
            decreases events@.len() - i,
        {
            proof {
                let upto = events@.take(i + 1);
                assert(upto.drop_last() == events@.take(i as int));
                assert(upto.last() == events@[i as int]);
            }
            pos = pos.step(&events[i]);
            i += 1;
        }
        proof {
            assert(events@.take(i as int) == events@);
        }
        pos
    }
}

} // verus!
