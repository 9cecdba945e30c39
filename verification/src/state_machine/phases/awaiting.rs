//! The awaiting phase: nothing is left to do in this round.

use vstd::prelude::*;
use crate::state_machine::io::{Supply, SupplyView};
use crate::state_machine::phase::{Fresh, Phase, StateView, Step};
use crate::state_machine::state_machine::{
    MachineView, StateMachine, Transition, TransitionOutcome, TransitionView,
};

verus! {

/// The state of the awaiting phase: there is none.
#[derive(Clone, Copy, Debug, PartialEq, Eq)]
pub struct Awaiting;

impl View for Awaiting {
    type V = Awaiting;

    open spec fn view(&self) -> Awaiting {
        *self
    }
}

/// A step of the awaiting phase: nothing happens.
pub open spec fn spec_awaiting_step(state: StateView<Awaiting>) -> TransitionView {
    TransitionView {
        complete: false,
        machine: MachineView::Awaiting(state),
        notification: None,
    }
}

impl Step for Phase<Awaiting> {
    open spec fn spec_step(self, supply: SupplyView, fresh: Fresh) -> TransitionView {
        spec_awaiting_step(self@)
    }

    open spec fn spec_drawn(self, fresh: Fresh) -> bool {
        true
    }

    /// A step of the awaiting phase: nothing happens, and the driver may
    /// sleep. Only a new round leads out of this phase.
    fn step(self, supply: &Supply) -> (transition: Transition) {
        let ghost origin = self;
        let ghost any: Fresh = arbitrary();
        let transition = Transition {
            outcome: TransitionOutcome::Pending(StateMachine::Awaiting(self)),
            notification: None,
        };
        assert(transition@ == origin.spec_step(supply@, any));
        transition
    }
}

} // verus!
