//! OutputPins drive the values calculated by Elements onto Wires.

use vstd::prelude::*;

verus! {

/// Drive state of an OutputPin.
#[derive(Debug, Copy, Clone, PartialEq, Eq, Structural)]
pub enum OutputPinState {
    Low,
    High,
    HighImpedance,
}

/// An interface between Element and Wire instances.
///
/// An OutputPin has a delay time representing the time it takes for a new value
/// to be calculated and propagated to the attached Wire.
pub struct OutputPin {
    /// A readable name for the pin.
    name: String,
    /// State that becomes active once the remaining propagation time elapses.
    propagating_state: OutputPinState,
    /// Active pin state.
    state: OutputPinState,
    /// Propagation delay for this pin.
    delay: u64,
    /// Remaining time until the propagating state becomes active.
    remaining_propagation: u64,
}

impl OutputPin {
    pub closed spec fn spec_name(&self) -> Seq<char> {
        self.name@
    }

    pub closed spec fn spec_delay(&self) -> u64 {
        self.delay
    }

    pub closed spec fn spec_state(&self) -> OutputPinState {
        self.state
    }

    /// The state that is on its way through the pin.
    pub closed spec fn pending(&self) -> OutputPinState {
        self.propagating_state
    }

    /// Time still to pass before `pending` becomes the active state.
    pub closed spec fn remaining(&self) -> u64 {
        self.remaining_propagation
    }

    /// Create a new OutputPin with the given name, propagation delay and initial
    /// active state. Nothing is propagating yet.
    pub fn new(name: &str, delay: u64, state: OutputPinState) -> (r: Self)
        ensures
            r.spec_name() == name@,
            r.spec_delay() == delay,
            r.spec_state() == state,
            r.pending() == OutputPinState::HighImpedance,
            r.remaining() == u64::MAX,
    {
        Self {
            name: name.to_string(),
            propagating_state: OutputPinState::HighImpedance,
            state,
            delay,
            remaining_propagation: u64::MAX,
        }
    }

    /// The pin name.
    pub fn name(&self) -> (r: &String)
        ensures
            r@ == self.spec_name(),
    {
        &self.name
    }

    /// The propagation delay of the pin.
    pub fn delay(&self) -> (r: u64)
        ensures
            r == self.spec_delay(),
    {
        self.delay
    }

    /// The active drive state of the pin: what influences an attached Wire.
    pub fn state(&self) -> (r: OutputPinState)
        ensures
            r == self.spec_state(),
    {
        self.state
    }

    /// Set the state that propagates through the pin; it becomes active after
    /// the pin's delay.
    pub fn set(&mut self, state: OutputPinState)
        ensures
            final(self).pending() == state,
            final(self).remaining() == old(self).spec_delay(),
            final(self).spec_state() == old(self).spec_state(),
            final(self).spec_delay() == old(self).spec_delay(),
            final(self).spec_name() == old(self).spec_name(),
    {
        self.propagating_state = state;
        self.remaining_propagation = self.delay;
    }

    /// Let `delta_t` of simulated time pass: once the remaining propagation time
    /// has elapsed, the pending state becomes active.
    pub fn step(&mut self, delta_t: u64)
        ensures
            final(self).pending() == old(self).pending(),
            final(self).spec_delay() == old(self).spec_delay(),
            final(self).spec_name() == old(self).spec_name(),
            delta_t >= old(self).remaining() ==> final(self).spec_state() == old(self).pending()
                && final(self).remaining() == 0,
            delta_t < old(self).remaining() ==> final(self).spec_state() == old(self).spec_state()
                && final(self).remaining() == old(self).remaining() - delta_t,
    {
        if delta_t >= self.remaining_propagation {
            self.remaining_propagation = 0;
            self.state = self.propagating_state;
        } else {
            self.remaining_propagation = self.remaining_propagation - delta_t;
        }
    }
}

} // verus!
