//! The timing control unit: an eight-state ring counter naming the cycle of
//! the instruction in flight.
//!
//! The counter carries no opcode-specific knowledge; which bus transaction a
//! position stands for is defined jointly with the current opcode by the
//! micro-operation table. The fetch position is `T0`; `reset` parks the
//! counter at `T7` so that the next advance lands on the fetch position.

use vstd::prelude::*;

verus! {

/// The partial instruction states of the CPU.
#[derive(Debug, Clone, Copy, PartialEq, Eq, Structural)]
pub enum State {
    /// The opcode-fetch position.
    T0,
    /// The second cycle of an instruction.
    T1,
    /// The third cycle of an instruction.
    T2,
    /// The fourth cycle of an instruction.
    T3,
    /// The fifth cycle of an instruction.
    T4,
    /// The sixth cycle of an instruction.
    T5,
    /// The seventh cycle of an instruction.
    T6,
    /// The eighth cycle of an instruction, and the pre-fetch rest position.
    T7,
}

/// The successor of a timing state: the cyclic order `T0` to `T7` and back.
pub open spec fn next_state(s: State) -> State {
    match s {
        State::T0 => State::T1,
        State::T1 => State::T2,
        State::T2 => State::T3,
        State::T3 => State::T4,
        State::T4 => State::T5,
        State::T5 => State::T6,
        State::T6 => State::T7,
        State::T7 => State::T0,
    }
}

/// The timing control unit.
#[derive(Debug, Clone, Copy, PartialEq, Eq, Structural)]
pub struct Tcu {
    /// The current partial instruction state.
    pub state: State,
}

impl Tcu {
    /// Goes to the next partial instruction state, cyclically.
    pub fn advance(&mut self)
        ensures
            final(self).state == next_state(old(self).state),
    {
        self.state = match self.state {
            State::T0 => State::T1,
            State::T1 => State::T2,
            State::T2 => State::T3,
            State::T3 => State::T4,
            State::T4 => State::T5,
            State::T5 => State::T6,
            State::T6 => State::T7,
            State::T7 => State::T0,
        };
    }

    /// Parks the counter at the position immediately preceding the fetch
    /// position, so the very next advance lands on the fetch cycle.
    pub fn reset(&mut self)
        ensures
            final(self).state == State::T7,
            next_state(final(self).state) == State::T0,
    {
        self.state = State::T7;
    }
}

/// Law: the counter is cyclic with period eight — from any state, eight
/// advances return to that state.
pub proof fn lemma_advance_period_eight(s: State)
    ensures
        next_state(next_state(next_state(next_state(next_state(next_state(next_state(
            next_state(s),
        ))))))) == s,
{
}

/// Law: a reset followed by one advance always lands on the fetch position.
pub proof fn lemma_reset_prepares_fetch()
    ensures
        next_state(State::T7) == State::T0,
{
}

} // verus!
