//! The sum2 phase: the participant opens the seeds that were sealed for
//! it and sends the sum of the masks they stand for.

use vstd::prelude::*;
use crate::crypto::{EncryptKeyPair, PublicSigningKey, Signature};
use crate::dict::UpdateSeedDict;
use crate::mask::{spec_open_seed, EncryptedMaskSeed, MaskObject, MaskSeed};
use crate::message::encoder::{EncoderView, MessageEncoder};
use crate::message::message::Tag;
use crate::message::payload::{spec_sum2_bytes, spec_sum2_fits, Payload};
use crate::message::payload::Sum2 as Sum2Message;
use crate::state_machine::io::{Demand, DemandKind, Notification, Supply, SupplyView};
use crate::state_machine::phase::{
    spec_composed, spec_sealed, Fresh, Phase, Progress, ProgressView, StateView, Step,
};
use crate::state_machine::state_machine::{
    spec_awaiting, MachineView, StateMachine, Transition, TransitionOutcome, TransitionView,
};

verus! {

/// The state of the sum2 phase. Each field but the keys and the
/// signature is filled by one sub-step; all but the length of the mask
/// are emptied by the sub-step that uses them up.
#[derive(Clone, Debug, PartialEq, Eq)]
pub struct Sum2 {
    /// The ephemeral keys that the sum phase of this round made.
    pub ephm_keys: EncryptKeyPair,
    /// The signature that shows the participant to be elected.
    pub sum_signature: Signature,
    /// The sealed seeds, once fetched, until they are opened.
    pub seed_dict: Option<UpdateSeedDict>,
    /// The seeds, once opened, until their masks are summed.
    pub seeds: Option<Vec<MaskSeed>>,
    /// The sum of the masks, until the message is composed.
    pub mask: Option<MaskObject>,
    /// The length of the mask, once fetched.
    pub mask_length: Option<u64>,
    /// The sum2 message, once it is composed.
    pub message: Option<MessageEncoder>,
}

/// The state of the sum2 phase, as the contracts speak of it.
pub struct Sum2View {
    pub ephm_keys: EncryptKeyPair,
    pub sum_signature: Signature,
    pub seed_dict: Option<Seq<(PublicSigningKey, EncryptedMaskSeed)>>,
    pub seeds: Option<Seq<MaskSeed>>,
    pub mask: Option<Seq<u8>>,
    pub mask_length: Option<u64>,
    pub message: Option<EncoderView>,
}

impl View for Sum2 {
    type V = Sum2View;

    open spec fn view(&self) -> Sum2View {
        Sum2View {
            ephm_keys: self.ephm_keys,
            sum_signature: self.sum_signature,
            seed_dict: match self.seed_dict {
                Some(dict) => Some(dict@),
                None => None,
            },
            seeds: match self.seeds {
                Some(seeds) => Some(seeds@),
                None => None,
            },
            mask: match self.mask {
                Some(mask) => Some(mask@),
                None => None,
            },
            mask_length: self.mask_length,
            message: match self.message {
                Some(encoder) => Some(encoder@),
                None => None,
            },
        }
    }
}

impl Sum2View {
    /// The state in which the sum2 phase starts.
    pub open spec fn start(ephm_keys: EncryptKeyPair, sum_signature: Signature) -> Sum2View {
        Sum2View {
            ephm_keys,
            sum_signature,
            seed_dict: None,
            seeds: None,
            mask: None,
            mask_length: None,
            message: None,
        }
    }

    /// Whether the length of the mask was fetched.
    pub open spec fn has_fetched_mask_length(self) -> bool {
        self.mask_length is Some || self.has_fetched_seed_dict()
    }

    /// Whether the sealed seeds were fetched.
    pub open spec fn has_fetched_seed_dict(self) -> bool {
        self.seed_dict is Some || self.has_decrypted_seeds()
    }

    /// Whether the seeds were opened.
    pub open spec fn has_decrypted_seeds(self) -> bool {
        self.seeds is Some || self.has_aggregated_masks()
    }

    /// Whether the masks were summed.
    pub open spec fn has_aggregated_masks(self) -> bool {
        self.mask is Some || self.has_composed_message()
    }

    /// Whether the message was composed.
    pub open spec fn has_composed_message(self) -> bool {
        self.message is Some
    }

    /// Whether the state is as a run of the phase leaves it. The
    /// ephemeral keys are a pair. Of the fields there are none yet; or
    /// the length of the mask; with it the sealed seeds; with it,
    /// in their place, the seeds; with it, in their place, the mask; or
    /// with it, in its place, the message.
    pub open spec fn valid(self) -> bool {
        let length = self.mask_length is Some;
        let seed_dict = self.seed_dict is Some;
        let seeds = self.seeds is Some;
        let mask = self.mask is Some;
        let message = self.message is Some;
        &&& self.ephm_keys.spec_matches()
        &&& {
            ||| !length && !seed_dict && !seeds && !mask && !message
            ||| length && !seed_dict && !seeds && !mask && !message
            ||| length && seed_dict && !seeds && !mask && !message
            ||| length && !seed_dict && seeds && !mask && !message
            ||| length && !seed_dict && !seeds && mask && !message
            ||| length && !seed_dict && !seeds && !mask && message
        }
    }
}

/// The sum2 phase in a state.
pub open spec fn spec_sum2(private: Sum2View, state: StateView<Sum2View>) -> MachineView {
    MachineView::Sum2(StateView { private, shared: state.shared })
}

/// The sub-step that fetches the length of the mask: a length that came
/// is kept; none, and the phase is stuck.
pub open spec fn spec_fetch_mask_length(
    state: StateView<Sum2View>,
    supply: SupplyView,
) -> ProgressView<Sum2View> {
    if state.private.has_fetched_mask_length() {
        ProgressView::Continue(state)
    } else {
        match supply {
            SupplyView::MaskLength(Some(length)) => ProgressView::Updated(
                spec_sum2(Sum2View { mask_length: Some(length), ..state.private }, state),
                None,
            ),
            _ => ProgressView::Stuck(state),
        }
    }
}

/// The sub-step that fetches the sealed seeds: a dictionary that came is
/// kept; none, and the phase is stuck.
pub open spec fn spec_fetch_seed_dict(
    state: StateView<Sum2View>,
    supply: SupplyView,
) -> ProgressView<Sum2View> {
    if state.private.has_fetched_seed_dict() {
        ProgressView::Continue(state)
    } else {
        match supply {
            SupplyView::Seeds(Some(dict)) => ProgressView::Updated(
                spec_sum2(Sum2View { seed_dict: Some(dict), ..state.private }, state),
                None,
            ),
            _ => ProgressView::Stuck(state),
        }
    }
}

/// Whether every sealed seed of the dictionary opens with the keys.
pub open spec fn spec_all_open(
    seed_dict: Seq<(PublicSigningKey, EncryptedMaskSeed)>,
    keys: EncryptKeyPair,
) -> bool {
    forall|i: int| 0 <= i < seed_dict.len() ==> spec_open_seed(
        (#[trigger] seed_dict[i]).1,
        keys,
    ) is Some
}

/// The seeds of the dictionary, opened, in the order of the dictionary.
pub open spec fn spec_opened(
    seed_dict: Seq<(PublicSigningKey, EncryptedMaskSeed)>,
    keys: EncryptKeyPair,
) -> Seq<MaskSeed> {
    Seq::new(seed_dict.len(), |i: int| spec_open_seed(seed_dict[i].1, keys).unwrap())
}

/// The sub-step that opens the sealed seeds, in place of the sealed
/// ones. One seed that does not open gives the phase up, and so does a
/// state that lacks the sealed seeds.
pub open spec fn spec_decrypt_seeds(state: StateView<Sum2View>) -> ProgressView<Sum2View> {
    if state.private.has_decrypted_seeds() {
        ProgressView::Continue(state)
    } else if state.private.seed_dict is Some && spec_all_open(
        state.private.seed_dict.unwrap(),
        state.private.ephm_keys,
    ) {
        ProgressView::Updated(
            spec_sum2(
                Sum2View {
                    seeds: Some(
                        spec_opened(state.private.seed_dict.unwrap(), state.private.ephm_keys),
                    ),
                    seed_dict: None,
                    ..state.private
                },
                state,
            ),
            None,
        )
    } else {
        ProgressView::Updated(spec_awaiting(state.shared), Some(Notification::Idle))
    }
}

/// The sub-step that sums the masks: the sum that came is kept in place
/// of the seeds; a mask that could not be added gives the phase up,
/// without a word to the host; nothing that came, and the phase is
/// stuck. A state that lacks the length of the mask or the seeds gives
/// the phase up.
pub open spec fn spec_aggregate_masks(
    state: StateView<Sum2View>,
    supply: SupplyView,
) -> ProgressView<Sum2View> {
    if state.private.has_aggregated_masks() {
        ProgressView::Continue(state)
    } else if state.private.mask_length is Some && state.private.seeds is Some {
        match supply {
            SupplyView::Aggregated(Some(mask)) => ProgressView::Updated(
                spec_sum2(Sum2View { mask: Some(mask), seeds: None, ..state.private }, state),
                None,
            ),
            SupplyView::Aggregated(None) => ProgressView::Updated(
                spec_awaiting(state.shared),
                None,
            ),
            _ => ProgressView::Stuck(state),
        }
    } else {
        ProgressView::Updated(spec_awaiting(state.shared), Some(Notification::Idle))
    }
}

/// The sub-step that composes the sum2 message, in place of the mask. A
/// state that lacks the mask gives the phase up, and so does a payload
/// that cannot be encoded under the participant's message size.
pub open spec fn spec_compose_sum2_message(
    state: StateView<Sum2View>,
    message_id: u16,
) -> ProgressView<Sum2View> {
    if state.private.has_composed_message() {
        ProgressView::Continue(state)
    } else if state.private.mask is Some {
        let mask = state.private.mask.unwrap();
        match spec_composed(
            state.shared,
            Tag::Sum2,
            spec_sum2_fits(mask.len()),
            spec_sum2_bytes(state.private.sum_signature, mask),
            message_id,
        ) {
            Some(encoder) => ProgressView::Updated(
                spec_sum2(Sum2View { message: Some(encoder), mask: None, ..state.private }, state),
                None,
            ),
            None => ProgressView::Updated(
                spec_awaiting(state.shared),
                Some(Notification::Idle),
            ),
        }
    } else {
        ProgressView::Updated(spec_awaiting(state.shared), Some(Notification::Idle))
    }
}

/// The end of a step at a sub-step that did not say to go on.
pub open spec fn spec_sum2_end(progress: ProgressView<Sum2View>) -> TransitionView {
    match progress {
        ProgressView::Stuck(state) => TransitionView {
            complete: false,
            machine: MachineView::Sum2(state),
            notification: None,
        },
        ProgressView::Continue(state) => TransitionView {
            complete: false,
            machine: MachineView::Sum2(state),
            notification: None,
        },
        ProgressView::Updated(machine, notification) => TransitionView {
            complete: true,
            machine,
            notification,
        },
    }
}

/// A step of the sum2 phase: the first sub-step that is not done yet,
/// in the order fetch the length, fetch the seeds, open, sum, compose.
/// Where all are done the message has been handed out for delivery, and
/// whether it was delivered or not, the participant has nothing more to
/// do in this round.
pub open spec fn spec_sum2_step(
    state: StateView<Sum2View>,
    supply: SupplyView,
    message_id: u16,
) -> TransitionView {
    if !(spec_fetch_mask_length(state, supply) is Continue) {
        spec_sum2_end(spec_fetch_mask_length(state, supply))
    } else if !(spec_fetch_seed_dict(state, supply) is Continue) {
        spec_sum2_end(spec_fetch_seed_dict(state, supply))
    } else if !(spec_decrypt_seeds(state) is Continue) {
        spec_sum2_end(spec_decrypt_seeds(state))
    } else if !(spec_aggregate_masks(state, supply) is Continue) {
        spec_sum2_end(spec_aggregate_masks(state, supply))
    } else if !(spec_compose_sum2_message(state, message_id) is Continue) {
        spec_sum2_end(spec_compose_sum2_message(state, message_id))
    } else {
        TransitionView {
            complete: true,
            machine: spec_awaiting(state.shared),
            notification: Some(Notification::Idle),
        }
    }
}

/// What a step of the sum2 phase needs: what its first sub-step that is
/// not done yet works on.
pub open spec fn spec_sum2_demand(state: StateView<Sum2View>) -> DemandKind {
    if !state.private.has_fetched_mask_length() {
        DemandKind::MaskLength
    } else if !state.private.has_fetched_seed_dict() {
        DemandKind::Seeds
    } else if !state.private.has_decrypted_seeds() {
        DemandKind::Nothing
    } else if !state.private.has_aggregated_masks() {
        if state.private.mask_length is Some {
            DemandKind::Aggregation
        } else {
            DemandKind::Nothing
        }
    } else if !state.private.has_composed_message() {
        DemandKind::Nothing
    } else {
        DemandKind::Delivery
    }
}

impl Sum2 {
    /// The state in which the sum2 phase starts.
    pub fn new(ephm_keys: EncryptKeyPair, sum_signature: Signature) -> (sum2: Self)
        ensures
            sum2@ == Sum2View::start(ephm_keys, sum_signature),
    {
        Sum2 {
            ephm_keys,
            sum_signature,
            seed_dict: None,
            seeds: None,
            mask: None,
            mask_length: None,
            message: None,
        }
    }

    /// Whether the state is as a run of the phase leaves it.
    pub fn is_valid(&self) -> (valid: bool)
        ensures
            valid == self@.valid(),
    {
        let length = self.mask_length.is_some();
        let seed_dict = self.seed_dict.is_some();
        let seeds = self.seeds.is_some();
        let mask = self.mask.is_some();
        let message = self.message.is_some();
        let fields = (!length && !seed_dict && !seeds && !mask && !message) || (length && !seeds
            && !mask && !message) || (length && !seed_dict && seeds && !mask && !message) || (
        length && !seed_dict && !seeds && mask && !message) || (length && !seed_dict && !seeds
            && !mask && message);
        fields && self.ephm_keys.matches()
    }

    /// Whether the sealed seeds were fetched.
    pub fn has_fetched_seed_dict(&self) -> (done: bool)
        ensures
            done == self@.has_fetched_seed_dict(),
    {
        self.seed_dict.is_some() || self.has_decrypted_seeds()
    }

    /// Whether the length of the mask was fetched.
    pub fn has_fetched_mask_length(&self) -> (done: bool)
        ensures
            done == self@.has_fetched_mask_length(),
    {
        self.mask_length.is_some() || self.has_fetched_seed_dict()
    }

    /// Whether the seeds were opened.
    pub fn has_decrypted_seeds(&self) -> (done: bool)
        ensures
            done == self@.has_decrypted_seeds(),
    {
        self.seeds.is_some() || self.has_aggregated_masks()
    }

    /// Whether the masks were summed.
    pub fn has_aggregated_masks(&self) -> (done: bool)
        ensures
            done == self@.has_aggregated_masks(),
    {
        self.mask.is_some() || self.has_composed_message()
    }

    /// Whether the message was composed.
    pub fn has_composed_message(&self) -> (done: bool)
        ensures
            done == self@.has_composed_message(),
    {
        self.message.is_some()
    }
}

/// Opens every sealed seed of the dictionary, in its order; `None` as
/// soon as one does not open.
pub fn open_all(seed_dict: &UpdateSeedDict, keys: &EncryptKeyPair) -> (seeds: Option<
    Vec<MaskSeed>,
>)
    ensures
        seeds is Some <==> spec_all_open(seed_dict@, *keys),
        seeds is Some ==> seeds.unwrap()@ == spec_opened(seed_dict@, *keys),
{
    let n = seed_dict.len();
    let mut seeds: Vec<MaskSeed> = Vec::new();
    let mut i: usize = 0;
    while i < n
        invariant
            i <= n,
            n == seed_dict@.len(),
            seeds@.len() == i,
            forall|k: int|
                0 <= k < i ==> spec_open_seed((#[trigger] seed_dict@[k]).1, *keys) == Some(
                    seeds@[k],
                ),
        decreases n - i,
    {
        let entry = seed_dict.entry(i);
        match entry.1.decrypt(keys) {
            Some(seed) => {
                seeds.push(seed);
            },
            None => {
                assert(spec_open_seed(seed_dict@[i as int].1, *keys) is None);
                return None;
            },
        }
        i += 1;
    }
    assert(seeds@ =~= spec_opened(seed_dict@, *keys));
    Some(seeds)
}

impl Phase<Sum2> {
    /// The end of a step at a sub-step that did not say to go on.
    fn end(progress: Progress<Sum2>) -> (transition: Transition)
        ensures
            transition@ == spec_sum2_end(progress@),
    {
        match progress {
            Progress::Stuck(phase) => Transition {
                outcome: TransitionOutcome::Pending(StateMachine::Sum2(phase)),
                notification: None,
            },
            Progress::Continue(phase) => Transition {
                outcome: TransitionOutcome::Pending(StateMachine::Sum2(phase)),
                notification: None,
            },
            Progress::Updated(machine, notification) => Transition {
                outcome: TransitionOutcome::Complete(machine),
                notification,
            },
        }
    }

    /// Takes the length of the mask, if the supply brings one and none
    /// was fetched before.
    pub fn fetch_mask_length(self, supply: &Supply) -> (progress: Progress<Sum2>)
        ensures
            progress@ == spec_fetch_mask_length(self@, supply@),
    {
        let mut phase = self;
        if phase.state.private.has_fetched_mask_length() {
            return Progress::Continue(phase);
        }
        match supply {
            Supply::MaskLength(Ok(Some(length))) => {
                phase.state.private.mask_length = Some(*length);
                Progress::Updated(StateMachine::Sum2(phase), None)
            },
            _ => Progress::Stuck(phase),
        }
    }

    /// Takes the sealed seeds, if the supply brings them and none were
    /// fetched before.
    pub fn fetch_seed_dict(self, supply: &Supply) -> (progress: Progress<Sum2>)
        ensures
            progress@ == spec_fetch_seed_dict(self@, supply@),
    {
        let mut phase = self;
        if phase.state.private.has_fetched_seed_dict() {
            return Progress::Continue(phase);
        }
        match supply {
            Supply::Seeds(Ok(Some(dict))) => {
                phase.state.private.seed_dict = Some(dict.clone());
                Progress::Updated(StateMachine::Sum2(phase), None)
            },
            _ => Progress::Stuck(phase),
        }
    }

    /// Opens the sealed seeds with the ephemeral keys, if they were not
    /// opened before. The seeds take the place of the sealed ones; one
    /// that does not open ends the phase.
    pub fn decrypt_seeds(self) -> (progress: Progress<Sum2>)
        ensures
            progress@ == spec_decrypt_seeds(self@),
    {
        let mut phase = self;
        if phase.state.private.has_decrypted_seeds() {
            return Progress::Continue(phase);
        }
        let seeds = match phase.state.private.seed_dict.take() {
            Some(seed_dict) => open_all(&seed_dict, &phase.state.private.ephm_keys),
            None => None,
        };
        match seeds {
            Some(seeds) => {
                phase.state.private.seeds = Some(seeds);
                Progress::Updated(StateMachine::Sum2(phase), None)
            },
            None => Progress::Updated(
                StateMachine::Awaiting(phase.into_awaiting()),
                Some(Notification::Idle),
            ),
        }
    }

    /// Takes the sum of the masks in place of the seeds, if the supply
    /// brings it and the masks were not summed before. A supply that
    /// says that a mask could not be added ends the phase.
    pub fn aggregate_masks(self, supply: &Supply) -> (progress: Progress<Sum2>)
        ensures
            progress@ == spec_aggregate_masks(self@, supply@),
    {
        let mut phase = self;
        if phase.state.private.has_aggregated_masks() {
            return Progress::Continue(phase);
        }
        if phase.state.private.mask_length.is_none() || phase.state.private.seeds.is_none() {
            return Progress::Updated(
                StateMachine::Awaiting(phase.into_awaiting()),
                Some(Notification::Idle),
            );
        }
        match supply {
            Supply::Aggregated(Some(mask)) => {
                phase.state.private.seeds = None;
                phase.state.private.mask = Some(mask.clone());
                Progress::Updated(StateMachine::Sum2(phase), None)
            },
            Supply::Aggregated(None) => Progress::Updated(
                StateMachine::Awaiting(phase.into_awaiting()),
                None,
            ),
            _ => Progress::Stuck(phase),
        }
    }

    /// Composes the sum2 message, if it is not there yet: the sum
    /// signature and the sum of the masks, under a message id that is
    /// drawn at random.
    pub fn compose_sum2_message(self) -> (progress: Progress<Sum2>)
        ensures
            exists|message_id: u16|
                progress@ == #[trigger] spec_compose_sum2_message(self@, message_id),
    {
        let ghost before = self@;
        let mut phase = self;
        if phase.state.private.has_composed_message() {
            let progress = Progress::Continue(phase);
            assert(progress@ == spec_compose_sum2_message(before, 0u16));
            return progress;
        }
        match phase.state.private.mask.take() {
            Some(mask) => {
                let sum2 = Sum2Message {
                    sum_signature: phase.state.private.sum_signature,
                    model_mask: mask,
                };
                match phase.message_encoder(Payload::Sum2(sum2)) {
                    Ok(encoder) => {
                        let ghost message_id = encoder@.message_id;
                        phase.state.private.message = Some(encoder);
                        let progress = Progress::Updated(StateMachine::Sum2(phase), None);
                        assert(progress@ == spec_compose_sum2_message(before, message_id));
                        progress
                    },
                    Err(_) => {
                        let progress = Progress::Updated(
                            StateMachine::Awaiting(phase.into_awaiting()),
                            Some(Notification::Idle),
                        );
                        assert(progress@ == spec_compose_sum2_message(before, 0u16));
                        progress
                    },
                }
            },
            None => {
                let progress = Progress::Updated(
                    StateMachine::Awaiting(phase.into_awaiting()),
                    Some(Notification::Idle),
                );
                assert(progress@ == spec_compose_sum2_message(before, 0u16));
                progress
            },
        }
    }

    /// What the next step needs: what its first sub-step that is not
    /// done yet works on. The seeds are asked for under the
    /// participant's public signing key; aggregation comes with the
    /// seeds and the length of the mask; a delivery comes with the
    /// packets of the message, sealed.
    pub fn demand(&self) -> (demand: Demand<'_>)
        ensures
            demand.spec_kind() == spec_sum2_demand(self@),
            match demand {
                Demand::Seeds(pk) => pk == self.state.shared.keys.public,
                Demand::Aggregation { config, mask_length, seeds } => config
                    == self.state.shared.mask_config && self@.private.mask_length == Some(
                    mask_length,
                ) && self@.private.seeds == Some(seeds@),
                Demand::Delivery(packets) => self@.private.message is Some && spec_sealed(
                    packets@,
                    self@.private.message.unwrap(),
                    self.state.shared.round_params.pk,
                ),
                _ => true,
            },
    {
        let private = &self.state.private;
        if !private.has_fetched_mask_length() {
            Demand::MaskLength
        } else if !private.has_fetched_seed_dict() {
            Demand::Seeds(self.state.shared.keys.public)
        } else if !private.has_decrypted_seeds() {
            Demand::Nothing
        } else if !private.has_aggregated_masks() {
            match (&private.mask_length, &private.seeds) {
                (Some(mask_length), Some(seeds)) => Demand::Aggregation {
                    config: self.state.shared.mask_config,
                    mask_length: *mask_length,
                    seeds,
                },
                _ => Demand::Nothing,
            }
        } else {
            match &private.message {
                Some(encoder) => Demand::Delivery(self.sealed_packets(encoder)),
                None => Demand::Nothing,
            }
        }
    }
}

impl Step for Phase<Sum2> {
    open spec fn spec_step(self, supply: SupplyView, fresh: Fresh) -> TransitionView {
        spec_sum2_step(self@, supply, fresh.message_id)
    }

    open spec fn spec_drawn(self, fresh: Fresh) -> bool {
        true
    }

    /// A step of the sum2 phase.
    fn step(self, supply: &Supply) -> (transition: Transition) {
        let ghost origin = self;
        let ghost any: Fresh = arbitrary();
        let ghost before = self@;
        let phase = match self.fetch_mask_length(supply) {
            Progress::Continue(phase) => phase,
            progress => {
                let transition = Self::end(progress);
                assert(transition@ == origin.spec_step(supply@, Fresh { message_id: 0u16, ..any }));
                return transition;
            },
        };
        let phase = match phase.fetch_seed_dict(supply) {
            Progress::Continue(phase) => phase,
            progress => {
                let transition = Self::end(progress);
                assert(transition@ == origin.spec_step(supply@, Fresh { message_id: 0u16, ..any }));
                return transition;
            },
        };
        let phase = match phase.decrypt_seeds() {
            Progress::Continue(phase) => phase,
            progress => {
                let transition = Self::end(progress);
                assert(transition@ == origin.spec_step(supply@, Fresh { message_id: 0u16, ..any }));
                return transition;
            },
        };
        let phase = match phase.aggregate_masks(supply) {
            Progress::Continue(phase) => phase,
            progress => {
                let transition = Self::end(progress);
                assert(transition@ == origin.spec_step(supply@, Fresh { message_id: 0u16, ..any }));
                return transition;
            },
        };
        let composed = phase.compose_sum2_message();
        let ghost message_id = choose|message_id: u16|
            composed@ == #[trigger] spec_compose_sum2_message(before, message_id);
        let phase = match composed {
            Progress::Continue(phase) => phase,
            progress => {
                let transition = Self::end(progress);
                assert(transition@ == origin.spec_step(supply@, Fresh { message_id, ..any }));
                return transition;
            },
        };
        let transition = Transition {
            outcome: TransitionOutcome::Complete(StateMachine::Awaiting(phase.into_awaiting())),
            notification: Some(Notification::Idle),
        };
        assert(transition@ == origin.spec_step(supply@, Fresh { message_id, ..any }));
        transition
    }
}

} // verus!
