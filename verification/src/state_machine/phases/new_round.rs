//! The new-round phase: the participant finds out what it is elected for.

use vstd::prelude::*;
use crate::bytes::append;
use crate::crypto::{spec_is_eligible, spec_sign, EncryptKeyPair, Signature};
use crate::state_machine::io::{Notification, Supply, SupplyView};
use crate::state_machine::phase::{Fresh, Phase, SharedState, State, StateView, Step};
use crate::state_machine::phases::awaiting::Awaiting;
use crate::state_machine::phases::sum::{Sum, SumView};
use crate::state_machine::phases::update::{Update, UpdateView};
use crate::state_machine::state_machine::{
    MachineView, StateMachine, Transition, TransitionOutcome, TransitionView,
};

verus! {

/// The state of the new-round phase: there is none.
#[derive(Clone, Copy, Debug, PartialEq, Eq)]
pub struct NewRound;

impl View for NewRound {
    type V = NewRound;

    open spec fn view(&self) -> NewRound {
        *self
    }
}

/// The role `sum`, as it is signed: the letters s, u, m.
pub open spec fn spec_role_sum() -> Seq<u8> {
    seq![0x73u8, 0x75u8, 0x6du8]
}

/// The role `update`, as it is signed: the letters u, p, d, a, t, e.
pub open spec fn spec_role_update() -> Seq<u8> {
    seq![0x75u8, 0x70u8, 0x64u8, 0x61u8, 0x74u8, 0x65u8]
}

/// The signature by which a participant shows that it is elected for a
/// role in a round: that of the seed of the round followed by the role.
pub open spec fn spec_role_signature(shared: SharedState, role: Seq<u8>) -> Signature {
    spec_sign(shared.keys.secret, shared.round_params.seed.bytes@ + role)
}

/// A step of the new-round phase. The participant is a sum participant
/// if its sum signature is eligible at the sum threshold; else an update
/// participant if its update signature is eligible at the update
/// threshold; else it waits for the next round.
pub open spec fn spec_new_round_step(
    state: StateView<NewRound>,
    ephm_keys: EncryptKeyPair,
) -> TransitionView {
    let shared = state.shared;
    let sum_signature = spec_role_signature(shared, spec_role_sum());
    let update_signature = spec_role_signature(shared, spec_role_update());
    if spec_is_eligible(sum_signature, shared.round_params.sum) {
        TransitionView {
            complete: true,
            machine: MachineView::Sum(
                StateView {
                    private: SumView { ephm_keys, sum_signature, message: None },
                    shared,
                },
            ),
            notification: Some(Notification::Sum),
        }
    } else if spec_is_eligible(update_signature, shared.round_params.update) {
        TransitionView {
            complete: true,
            machine: MachineView::Update(
                StateView { private: UpdateView::start(sum_signature, update_signature), shared },
            ),
            notification: Some(Notification::Update),
        }
    } else {
        TransitionView {
            complete: true,
            machine: MachineView::Awaiting(StateView { private: Awaiting, shared }),
            notification: Some(Notification::Idle),
        }
    }
}

/// What holds of the ephemeral keys that a step of the new-round phase
/// draws, whichever they are: where the step leads into the sum phase,
/// they are a pair.
pub open spec fn spec_new_round_drawn(state: StateView<NewRound>, ephm_keys: EncryptKeyPair) -> bool {
    spec_new_round_step(state, ephm_keys).machine is Sum ==> ephm_keys.spec_matches()
}

impl Phase<NewRound> {
    /// The signature of the seed of the round followed by `role`.
    pub fn sign(&self, role: &[u8]) -> (signature: Signature)
        ensures
            signature == spec_role_signature(self.state.shared, role@),
    {
        let mut message: Vec<u8> = Vec::new();
        append(&mut message, self.state.shared.round_params.seed.bytes.as_slice());
        append(&mut message, role);
        self.state.shared.keys.secret.sign_detached(message.as_slice())
    }

    /// The sum phase that follows, with fresh ephemeral keys. The keys
    /// are drawn at random; whichever they are, they are a pair.
    pub fn into_sum(self, sum_signature: Signature) -> (phase: Phase<Sum>)
        ensures
            phase@ == (StateView {
                private: SumView {
                    ephm_keys: phase@.private.ephm_keys,
                    sum_signature,
                    message: None,
                },
                shared: self.state.shared,
            }),
            phase@.private.ephm_keys.spec_matches(),
    {
        let sum = Sum::new(sum_signature);
        Phase::<Sum>::new(State::new(self.state.shared, sum))
    }

    /// The update phase that follows.
    pub fn into_update(self, sum_signature: Signature, update_signature: Signature) -> (phase:
        Phase<Update>)
        ensures
            phase@ == (StateView {
                private: UpdateView::start(sum_signature, update_signature),
                shared: self.state.shared,
            }),
    {
        let update = Update::new(sum_signature, update_signature);
        Phase::<Update>::new(State::new(self.state.shared, update))
    }
}

impl Step for Phase<NewRound> {
    open spec fn spec_step(self, supply: SupplyView, fresh: Fresh) -> TransitionView {
        spec_new_round_step(self@, fresh.ephm_keys)
    }

    open spec fn spec_drawn(self, fresh: Fresh) -> bool {
        spec_new_round_drawn(self@, fresh.ephm_keys)
    }

    /// A step of the new-round phase: the participant signs for the sum
    /// role and, if that does not elect it, for the update role, and
    /// goes on to the phase it is elected for. The ephemeral keys of a
    /// sum participant are drawn at random; whichever they are, they
    /// are a pair.
    fn step(self, supply: &Supply) -> (transition: Transition)
        ensures
            transition@.machine is Sum
                ==> transition@.machine->Sum_0.private.ephm_keys.spec_matches(),
            transition@.machine.valid(),
    {
        let ghost origin = self;
        let ghost any: Fresh = arbitrary();
        let mut role_sum: Vec<u8> = Vec::new();
        role_sum.push(0x73);
        role_sum.push(0x75);
        role_sum.push(0x6d);
        assert(role_sum@ =~= spec_role_sum());
        let ghost before = self@;
        let sum_signature = self.sign(role_sum.as_slice());
        if sum_signature.is_eligible(self.state.shared.round_params.sum) {
            let phase = self.into_sum(sum_signature);
            let ghost ephm_keys = phase@.private.ephm_keys;
            let transition = Transition {
                outcome: TransitionOutcome::Complete(StateMachine::Sum(phase)),
                notification: Some(Notification::Sum),
            };
            assert(transition@ == origin.spec_step(supply@, Fresh { ephm_keys, ..any }));
            return transition;
        }
        let mut role_update: Vec<u8> = Vec::new();
        role_update.push(0x75);
        role_update.push(0x70);
        role_update.push(0x64);
        role_update.push(0x61);
        role_update.push(0x74);
        role_update.push(0x65);
        assert(role_update@ =~= spec_role_update());
        let update_signature = self.sign(role_update.as_slice());
        let ghost any_keys: EncryptKeyPair = arbitrary();
        if update_signature.is_eligible(self.state.shared.round_params.update) {
            let phase = self.into_update(sum_signature, update_signature);
            let transition = Transition {
                outcome: TransitionOutcome::Complete(StateMachine::Update(phase)),
                notification: Some(Notification::Update),
            };
            assert(transition@ == origin.spec_step(supply@, Fresh { ephm_keys: any_keys, ..any }));
            return transition;
        }
        let phase = self.into_awaiting();
        let transition = Transition {
            outcome: TransitionOutcome::Complete(StateMachine::Awaiting(phase)),
            notification: Some(Notification::Idle),
        };
        assert(transition@ == origin.spec_step(supply@, Fresh { ephm_keys: any_keys, ..any }));
        transition
    }
}

} // verus!
