//! What all phases share: the shared state, the freshness check that
//! opens every step, and the shapes that a step and its sub-steps return.

use vstd::prelude::*;
use crate::common::{spec_unset, RoundParameters};
use crate::crypto::{
    spec_sealed_for, EncryptKeyPair, PublicEncryptKey, SigningKeyPair, SEALBYTES,
};
use crate::mask::{EncryptedMaskSeed, MaskConfig, Scalar};
use crate::message::encoder::{
    spec_encoding_error, EncoderView, InvalidEncodingInput, MessageEncoder,
};
use crate::message::message::Tag;
use crate::message::payload::Payload;
use crate::settings::{AgentSettings, MaxMessageSize};
use crate::state_machine::io::{IoError, Notification, Supply, SupplyView};
use crate::state_machine::phases::awaiting::Awaiting;
use crate::state_machine::phases::new_round::NewRound;
use crate::state_machine::state_machine::{
    MachineView, StateMachine, Transition, TransitionView,
};

verus! {

/// What every phase holds.
#[derive(Clone, Copy, Debug, PartialEq, Eq)]
pub struct SharedState {
    /// The keys the participant signs with.
    pub keys: SigningKeyPair,
    /// The parameters of the masking scheme.
    pub mask_config: MaskConfig,
    /// The factor by which the model is scaled.
    pub scalar: Scalar,
    /// The longest message the participant sends.
    pub message_size: MaxMessageSize,
    /// The round parameters that were last seen.
    pub round_params: RoundParameters,
}

/// The state of a phase: its own, and the shared one.
#[derive(Clone, Debug, PartialEq, Eq)]
pub struct State<P> {
    /// What is the phase's own.
    pub private: P,
    /// What all phases share.
    pub shared: SharedState,
}

/// A state, as the contracts speak of it.
pub struct StateView<V> {
    pub private: V,
    pub shared: SharedState,
}

/// A phase of the protocol, with its state.
#[derive(Clone, Debug, PartialEq, Eq)]
pub struct Phase<P> {
    pub state: State<P>,
}

/// What a sub-step of a phase came to.
#[derive(Debug)]
pub enum Progress<P> {
    /// Nothing can be done for now.
    Stuck(Phase<P>),
    /// This sub-step was done before: on to the next.
    Continue(Phase<P>),
    /// Something was done. The step ends with this state machine and
    /// this word to the host.
    Updated(StateMachine, Option<Notification>),
}

/// What a sub-step came to, as the contracts speak of it.
pub enum ProgressView<V> {
    Stuck(StateView<V>),
    Continue(StateView<V>),
    Updated(MachineView, Option<Notification>),
}

/// What the round parameters that the coordinator gave say of the round
/// the participant is in.
#[derive(Clone, Copy, Debug, PartialEq, Eq)]
pub enum RoundFreshness {
    /// The coordinator is in another round.
    Outdated,
    /// The coordinator gave no answer.
    Unknown,
    /// The round is still the same.
    Fresh,
}

/// A phase after the freshness check.
#[derive(Debug)]
pub enum Refreshed<P> {
    /// The coordinator gave no answer: the phase, as it was.
    Unknown(Phase<P>),
    /// The coordinator is in another round: the new-round phase, with
    /// the parameters of that round.
    Outdated(Phase<NewRound>),
    /// The round is still the same: the phase, as it was.
    Fresh(Phase<P>),
}

/// What a step draws at random. The draws themselves are left open: a
/// step says what holds of them whatever they are, and all the rest of
/// the step is fixed by the state, the supply and the draws.
pub struct Fresh {
    /// The ephemeral keys of a participant that enters the sum phase.
    pub ephm_keys: EncryptKeyPair,
    /// The id of a message that is composed.
    pub message_id: u16,
    /// The mask seed, sealed once for each sum participant.
    pub sealed: Seq<EncryptedMaskSeed>,
}

/// One step of a phase: the work of one tick, once the round is known to
/// be the same.
pub trait Step: Sized {
    /// What the step comes to, for what came of the demand and for what
    /// the step draws at random.
    spec fn spec_step(self, supply: SupplyView, fresh: Fresh) -> TransitionView;

    /// What holds of whatever the step draws at random.
    spec fn spec_drawn(self, fresh: Fresh) -> bool;

    /// Makes the step.
    fn step(self, supply: &Supply) -> (transition: Transition)
        ensures
            exists|fresh: Fresh|
                transition@ == #[trigger] self.spec_step(supply@, fresh) && self.spec_drawn(fresh),
    ;
}

impl<P: View> View for State<P> {
    type V = StateView<P::V>;

    open spec fn view(&self) -> StateView<P::V> {
        StateView { private: self.private@, shared: self.shared }
    }
}

impl<P: View> View for Phase<P> {
    type V = StateView<P::V>;

    open spec fn view(&self) -> StateView<P::V> {
        self.state@
    }
}

impl<P: View> View for Progress<P> {
    type V = ProgressView<P::V>;

    open spec fn view(&self) -> ProgressView<P::V> {
        match self {
            Progress::Stuck(phase) => ProgressView::Stuck(phase@),
            Progress::Continue(phase) => ProgressView::Continue(phase@),
            Progress::Updated(machine, notification) => ProgressView::Updated(
                machine@,
                *notification,
            ),
        }
    }
}

/// What the answer to the question for the round parameters says of the
/// round: no answer, the same round, or another.
pub open spec fn spec_freshness(
    shared: SharedState,
    answer: Result<RoundParameters, IoError>,
) -> RoundFreshness {
    match answer {
        Err(_) => RoundFreshness::Unknown,
        Ok(params) => if params == shared.round_params {
            RoundFreshness::Fresh
        } else {
            RoundFreshness::Outdated
        },
    }
}

/// The shared state after the answer: it holds the parameters of the
/// other round, if the answer was another round.
pub open spec fn spec_refreshed(
    shared: SharedState,
    answer: Result<RoundParameters, IoError>,
) -> SharedState {
    match answer {
        Ok(params) => SharedState { round_params: params, ..shared },
        Err(_) => shared,
    }
}

/// The most bytes that the payload of one packet may have under the
/// shared state; 0 for no limit.
pub open spec fn spec_max_payload_size(shared: SharedState) -> usize {
    match shared.message_size.spec_max_payload_size() {
        Some(size) => size,
        None => 0,
    }
}

/// The encoder that a phase makes of a payload which is no chunk, or
/// `None` where the payload cannot be encoded.
pub open spec fn spec_composed(
    shared: SharedState,
    tag: Tag,
    fits: bool,
    payload: Seq<u8>,
    message_id: u16,
) -> Option<EncoderView> {
    if spec_encoding_error(false, fits, payload.len() as int, spec_max_payload_size(shared))
        is None {
        Some(
            EncoderView {
                keys: shared.keys,
                tag,
                payload,
                max_payload_size: spec_max_payload_size(shared),
                message_id,
            },
        )
    } else {
        None
    }
}

/// Whether `sealed` are the packets of `encoder`, each sealed for `pk`:
/// there are as many, in the same order; each is 48 bytes longer than
/// its packet and opens to it under every secret key that `pk` belongs
/// to.
pub open spec fn spec_sealed(
    sealed: Seq<Vec<u8>>,
    encoder: EncoderView,
    pk: PublicEncryptKey,
) -> bool {
    &&& sealed.len() == encoder.count()
    &&& forall|i: int|
        0 <= i < sealed.len() ==> (#[trigger] sealed[i])@.len() == encoder.packet(i).len()
            + SEALBYTES
    &&& forall|i: int|
        0 <= i < sealed.len() ==> spec_sealed_for(
            (#[trigger] sealed[i])@,
            encoder.packet(i),
            pk.bytes@,
        )
}

impl SharedState {
    /// The shared state of a participant that has seen no round yet.
    pub fn new(settings: AgentSettings) -> (shared: Self)
        ensures
            shared.keys == settings.keys,
            shared.mask_config == settings.mask_config,
            shared.scalar == settings.scalar,
            shared.message_size == settings.max_message_size,
            spec_unset(shared.round_params),
    {
        SharedState {
            keys: settings.keys,
            mask_config: settings.mask_config,
            scalar: settings.scalar,
            message_size: settings.max_message_size,
            round_params: RoundParameters::default(),
        }
    }
}

impl<P> State<P> {
    /// A state made of its two parts.
    pub fn new(shared: SharedState, private: P) -> (state: Self)
        ensures
            state.shared == shared,
            state.private == private,
    {
        State { shared, private }
    }
}

impl<P> Phase<P> {
    /// The phase that is in `state`.
    pub fn new(state: State<P>) -> (phase: Self)
        ensures
            phase.state == state,
    {
        Phase { state }
    }

    /// The phase that was in the two parts of a state when it was kept.
    pub fn restore(shared_state: SharedState, phase_state: P) -> (phase: Self)
        ensures
            phase.state.shared == shared_state,
            phase.state.private == phase_state,
    {
        Phase { state: State { shared: shared_state, private: phase_state } }
    }

    /// Takes the answer to the question for the round parameters. Where
    /// the coordinator is in another round, the shared state takes the
    /// parameters of that round; what is the phase's own is not touched.
    pub fn check_round_freshness(&mut self, answer: Result<RoundParameters, IoError>) -> (freshness:
        RoundFreshness)
        ensures
            freshness == spec_freshness(old(self).state.shared, answer),
            freshness is Outdated ==> final(self).state.shared == spec_refreshed(
                old(self).state.shared,
                answer,
            ),
            !(freshness is Outdated) ==> final(self).state.shared == old(self).state.shared,
            final(self).state.private == old(self).state.private,
    {
        match answer {
            Err(_) => RoundFreshness::Unknown,
            Ok(params) => {
                if params.same(&self.state.shared.round_params) {
                    RoundFreshness::Fresh
                } else {
                    self.state.shared.round_params = params;
                    RoundFreshness::Outdated
                }
            },
        }
    }

    /// The freshness check that opens every step. A phase that finds the
    /// coordinator in another round is left at once, whatever it held,
    /// for the new-round phase.
    pub fn refresh(self, answer: Result<RoundParameters, IoError>) -> (refreshed: Refreshed<P>)
        ensures
            match refreshed {
                Refreshed::Unknown(phase) => spec_freshness(self.state.shared, answer)
                    is Unknown && phase == self,
                Refreshed::Outdated(phase) => spec_freshness(self.state.shared, answer)
                    is Outdated && phase.state.shared == spec_refreshed(self.state.shared, answer),
                Refreshed::Fresh(phase) => spec_freshness(self.state.shared, answer) is Fresh
                    && phase == self,
            },
    {
        let mut phase = self;
        match phase.check_round_freshness(answer) {
            RoundFreshness::Unknown => Refreshed::Unknown(phase),
            RoundFreshness::Outdated => Refreshed::Outdated(
                Phase { state: State { shared: phase.state.shared, private: NewRound } },
            ),
            RoundFreshness::Fresh => Refreshed::Fresh(phase),
        }
    }

    /// The awaiting phase with the same shared state.
    pub fn into_awaiting(self) -> (phase: Phase<Awaiting>)
        ensures
            phase.state.shared == self.state.shared,
    {
        Phase { state: State { shared: self.state.shared, private: Awaiting } }
    }

    /// The most bytes that the payload of one packet may have; 0 for no
    /// limit.
    pub fn max_payload_size(&self) -> (size: usize)
        ensures
            size == spec_max_payload_size(self.state.shared),
    {
        match self.state.shared.message_size.max_payload_size() {
            Some(size) => size,
            None => 0,
        }
    }

    /// An encoder for `payload`, signed with the participant's keys and
    /// cut to the participant's message size. The id of the message is
    /// drawn at random.
    pub fn message_encoder(&self, payload: Payload) -> (encoder: Result<
        MessageEncoder,
        InvalidEncodingInput,
    >)
        ensures
            match encoder {
                Ok(e) => MessageEncoder::spec_input_error(
                    payload,
                    spec_max_payload_size(self.state.shared),
                ) is None && e@ == (EncoderView {
                    keys: self.state.shared.keys,
                    tag: MessageEncoder::spec_tag_of(payload),
                    payload: payload.spec_bytes(),
                    max_payload_size: spec_max_payload_size(self.state.shared),
                    message_id: e@.message_id,
                }),
                Err(e) => MessageEncoder::spec_input_error(
                    payload,
                    spec_max_payload_size(self.state.shared),
                ) == Some(e),
            },
    {
        MessageEncoder::new(self.state.shared.keys, payload, self.max_payload_size())
    }

    /// The packets of `encoder`, in their order, each sealed for the
    /// coordinator of the round. Sealing draws fresh randomness, so the
    /// bytes of a sealed packet are left open; whatever they are, they
    /// are 48 more than the packet's and open to the packet for the
    /// coordinator.
    pub fn sealed_packets(&self, encoder: &MessageEncoder) -> (sealed: Vec<Vec<u8>>)
        ensures
            spec_sealed(sealed@, encoder@, self.state.shared.round_params.pk),
    {
        let count = encoder.len();
        let mut sealed: Vec<Vec<u8>> = Vec::new();
        let mut i: usize = 0;
        while i < count
            invariant
                i <= count,
                count == encoder@.count(),
                sealed@.len() == i,
                forall|k: int|
                    0 <= k < i ==> (#[trigger] sealed@[k])@.len() == encoder@.packet(k).len()
                        + SEALBYTES,
                forall|k: int|
                    0 <= k < i ==> spec_sealed_for(
                        (#[trigger] sealed@[k])@,
                        encoder@.packet(k),
                        self.state.shared.round_params.pk.bytes@,
                    ),
            decreases count - i,
        {
            let packet = encoder.packet(i);
            let data = self.state.shared.round_params.pk.encrypt(packet.as_slice());
            sealed.push(data);
            i += 1;
        }
        sealed
    }
}

} // verus!
