//! The sum phase: the participant announces its ephemeral key.

use vstd::prelude::*;
use crate::crypto::{EncryptKeyPair, Signature};
use crate::message::encoder::{EncoderView, MessageEncoder};
use crate::message::message::Tag;
use crate::message::payload::{spec_sum_bytes, Payload};
use crate::message::payload::Sum as SumMessage;
use crate::state_machine::io::{Demand, DemandKind, Notification, Supply, SupplyView};
use crate::state_machine::phase::{
    spec_composed, spec_sealed, Fresh, Phase, Progress, ProgressView, State, StateView, Step,
};
use crate::state_machine::phases::awaiting::Awaiting;
use crate::state_machine::phases::sum2::{Sum2, Sum2View};
use crate::state_machine::state_machine::{
    spec_awaiting, MachineView, StateMachine, Transition, TransitionOutcome, TransitionView,
};

verus! {

/// The state of the sum phase.
#[derive(Clone, Debug, PartialEq, Eq)]
pub struct Sum {
    /// The ephemeral keys of this round. They go on into the sum2
    /// phase.
    pub ephm_keys: EncryptKeyPair,
    /// The signature that shows the participant to be elected.
    pub sum_signature: Signature,
    /// The sum message, once it is composed.
    pub message: Option<MessageEncoder>,
}

/// The state of the sum phase, as the contracts speak of it.
pub struct SumView {
    pub ephm_keys: EncryptKeyPair,
    pub sum_signature: Signature,
    pub message: Option<EncoderView>,
}

impl View for Sum {
    type V = SumView;

    open spec fn view(&self) -> SumView {
        SumView {
            ephm_keys: self.ephm_keys,
            sum_signature: self.sum_signature,
            message: match self.message {
                Some(encoder) => Some(encoder@),
                None => None,
            },
        }
    }
}

impl SumView {
    /// Whether the ephemeral keys are a pair: the public key belongs to
    /// the secret key, so that what is sealed for the key that the
    /// participant announces opens in the sum2 phase.
    pub open spec fn valid(self) -> bool {
        self.ephm_keys.spec_matches()
    }
}

/// The sub-step that composes the sum message. Where the message is
/// there, it is left as it is. Where the payload cannot be encoded under
/// the participant's message size, the phase is given up.
pub open spec fn spec_compose_sum_message(
    state: StateView<SumView>,
    message_id: u16,
) -> ProgressView<SumView> {
    if state.private.message is Some {
        ProgressView::Continue(state)
    } else {
        match spec_composed(
            state.shared,
            Tag::Sum,
            true,
            spec_sum_bytes(state.private.sum_signature, state.private.ephm_keys.public),
            message_id,
        ) {
            Some(encoder) => ProgressView::Updated(
                MachineView::Sum(
                    StateView {
                        private: SumView { message: Some(encoder), ..state.private },
                        shared: state.shared,
                    },
                ),
                None,
            ),
            None => ProgressView::Updated(
                spec_awaiting(state.shared),
                Some(Notification::Idle),
            ),
        }
    }
}

/// A step of the sum phase: the message is composed; or, where it was
/// composed, the outcome of its delivery decides. Delivered, the
/// participant goes on to the sum2 phase with its keys and signature;
/// else it gives the round up.
pub open spec fn spec_sum_step(
    state: StateView<SumView>,
    supply: SupplyView,
    message_id: u16,
) -> TransitionView {
    match spec_compose_sum_message(state, message_id) {
        ProgressView::Stuck(s) => TransitionView {
            complete: false,
            machine: MachineView::Sum(s),
            notification: None,
        },
        ProgressView::Updated(machine, notification) => TransitionView {
            complete: true,
            machine,
            notification,
        },
        ProgressView::Continue(s) => if supply == SupplyView::Delivered(true) {
            TransitionView {
                complete: true,
                machine: MachineView::Sum2(
                    StateView {
                        private: Sum2View::start(s.private.ephm_keys, s.private.sum_signature),
                        shared: s.shared,
                    },
                ),
                notification: None,
            }
        } else {
            TransitionView {
                complete: true,
                machine: spec_awaiting(s.shared),
                notification: Some(Notification::Idle),
            }
        },
    }
}

/// What a step of the sum phase needs: nothing to compose the message,
/// then its delivery.
pub open spec fn spec_sum_demand(state: StateView<SumView>) -> DemandKind {
    if state.private.message is Some {
        DemandKind::Delivery
    } else {
        DemandKind::Nothing
    }
}

impl Sum {
    /// The state in which the sum phase starts, with fresh ephemeral
    /// keys. The keys are drawn at random; whichever they are, they are
    /// a pair.
    pub fn new(sum_signature: Signature) -> (sum: Self)
        ensures
            sum.sum_signature == sum_signature,
            sum.message is None,
            sum.ephm_keys.spec_matches(),
            sum@.valid(),
    {
        Sum { ephm_keys: EncryptKeyPair::generate(), sum_signature, message: None }
    }

    /// Whether the ephemeral keys are a pair.
    pub fn is_valid(&self) -> (valid: bool)
        ensures
            valid == self@.valid(),
    {
        self.ephm_keys.matches()
    }
}

impl Phase<Sum> {
    /// Composes the sum message, if it is not there yet: the sum
    /// signature and the ephemeral public key, under a message id that
    /// is drawn at random.
    pub fn compose_sum_message(self) -> (progress: Progress<Sum>)
        ensures
            exists|message_id: u16|
                progress@ == #[trigger] spec_compose_sum_message(self@, message_id),
    {
        let ghost before = self@;
        let mut phase = self;
        if phase.state.private.message.is_some() {
            let progress = Progress::Continue(phase);
            assert(progress@ == spec_compose_sum_message(before, 0u16));
            return progress;
        }
        let sum = SumMessage {
            sum_signature: phase.state.private.sum_signature,
            ephm_pk: phase.state.private.ephm_keys.public,
        };
        match phase.message_encoder(Payload::Sum(sum)) {
            Ok(encoder) => {
                let ghost message_id = encoder@.message_id;
                phase.state.private.message = Some(encoder);
                let progress = Progress::Updated(StateMachine::Sum(phase), None);
                assert(progress@ == spec_compose_sum_message(before, message_id));
                progress
            },
            Err(_) => {
                let progress = Progress::Updated(
                    StateMachine::Awaiting(phase.into_awaiting()),
                    Some(Notification::Idle),
                );
                assert(progress@ == spec_compose_sum_message(before, 0u16));
                progress
            },
        }
    }

    /// The sum2 phase that follows, with the same keys and signature.
    pub fn into_sum2(self) -> (phase: Phase<Sum2>)
        ensures
            phase@ == (StateView {
                private: Sum2View::start(self@.private.ephm_keys, self@.private.sum_signature),
                shared: self.state.shared,
            }),
    {
        let sum2 = Sum2::new(self.state.private.ephm_keys, self.state.private.sum_signature);
        Phase::<Sum2>::new(State::new(self.state.shared, sum2))
    }

    /// What the next step needs: nothing while the message is not
    /// composed, then the delivery of its packets, sealed.
    pub fn demand(&self) -> (demand: Demand<'_>)
        ensures
            demand.spec_kind() == spec_sum_demand(self@),
            match demand {
                Demand::Delivery(packets) => self@.private.message is Some && spec_sealed(
                    packets@,
                    self@.private.message.unwrap(),
                    self.state.shared.round_params.pk,
                ),
                _ => true,
            },
    {
        match &self.state.private.message {
            Some(encoder) => Demand::Delivery(self.sealed_packets(encoder)),
            None => Demand::Nothing,
        }
    }
}

impl Step for Phase<Sum> {
    open spec fn spec_step(self, supply: SupplyView, fresh: Fresh) -> TransitionView {
        spec_sum_step(self@, supply, fresh.message_id)
    }

    open spec fn spec_drawn(self, fresh: Fresh) -> bool {
        true
    }

    /// A step of the sum phase.
    fn step(self, supply: &Supply) -> (transition: Transition) {
        let ghost origin = self;
        let ghost any: Fresh = arbitrary();
        let ghost before = self@;
        let progress = self.compose_sum_message();
        let ghost message_id = choose|message_id: u16|
            progress@ == #[trigger] spec_compose_sum_message(before, message_id);
        let phase = match progress {
            Progress::Stuck(phase) => {
                let transition = Transition {
                    outcome: TransitionOutcome::Pending(StateMachine::Sum(phase)),
                    notification: None,
                };
                assert(transition@ == origin.spec_step(supply@, Fresh { message_id, ..any }));
                return transition;
            },
            Progress::Continue(phase) => phase,
            Progress::Updated(machine, notification) => {
                let transition = Transition {
                    outcome: TransitionOutcome::Complete(machine),
                    notification,
                };
                assert(transition@ == origin.spec_step(supply@, Fresh { message_id, ..any }));
                return transition;
            },
        };
        let delivered = match supply {
            Supply::Delivered(Ok(())) => true,
            _ => false,
        };
        let transition = if delivered {
            Transition {
                outcome: TransitionOutcome::Complete(StateMachine::Sum2(phase.into_sum2())),
                notification: None,
            }
        } else {
            Transition {
                outcome: TransitionOutcome::Complete(
                    StateMachine::Awaiting(phase.into_awaiting()),
                ),
                notification: Some(Notification::Idle),
            }
        };
        assert(transition@ == origin.spec_step(supply@, Fresh { message_id, ..any }));
        transition
    }
}

} // verus!
