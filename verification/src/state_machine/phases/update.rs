//! The update phase: the participant masks its model and seals the seed
//! of the mask for every sum participant.

use vstd::prelude::*;
use crate::crypto::{PublicEncryptKey, PublicSigningKey, Signature};
use crate::dict::{distinct_keys, lacks_key, LocalSeedDict, SumDict};
use crate::mask::{spec_seed_sealed_for, EncryptedMaskSeed, MaskObject, MaskSeed, Model};
use crate::message::encoder::{EncoderView, MessageEncoder};
use crate::message::message::Tag;
use crate::message::payload::{spec_update_bytes, spec_update_fits, Payload};
use crate::message::payload::Update as UpdateMessage;
use crate::state_machine::io::{Demand, DemandKind, Notification, Supply, SupplyView};
use crate::state_machine::phase::{
    spec_composed, spec_sealed, Fresh, Phase, Progress, ProgressView, StateView, Step,
};
use crate::state_machine::state_machine::{
    spec_awaiting, MachineView, StateMachine, Transition, TransitionOutcome, TransitionView,
};

verus! {

/// The state of the update phase. Each field but the signatures is
/// filled by one sub-step and emptied by the sub-step that uses it up.
#[derive(Clone, Debug, PartialEq, Eq)]
pub struct Update {
    /// The signature that did not elect the participant to sum.
    pub sum_signature: Signature,
    /// The signature that elected the participant to update.
    pub update_signature: Signature,
    /// The sum dictionary, once fetched, until the seed dictionary is
    /// built from it.
    pub sum_dict: Option<SumDict>,
    /// The seed dictionary, once built, until the message is composed.
    pub seed_dict: Option<LocalSeedDict>,
    /// The local model, once loaded, until it is masked.
    pub model: Option<Model>,
    /// The seed and the masked model, until the message is composed.
    pub mask: Option<(MaskSeed, MaskObject)>,
    /// The update message, once it is composed.
    pub message: Option<MessageEncoder>,
}

/// The state of the update phase, as the contracts speak of it.
pub struct UpdateView {
    pub sum_signature: Signature,
    pub update_signature: Signature,
    pub sum_dict: Option<Seq<(PublicSigningKey, PublicEncryptKey)>>,
    pub seed_dict: Option<Seq<(PublicSigningKey, EncryptedMaskSeed)>>,
    pub model: Option<Seq<u8>>,
    pub mask: Option<(MaskSeed, Seq<u8>)>,
    pub message: Option<EncoderView>,
}

impl View for Update {
    type V = UpdateView;

    open spec fn view(&self) -> UpdateView {
        UpdateView {
            sum_signature: self.sum_signature,
            update_signature: self.update_signature,
            sum_dict: match self.sum_dict {
                Some(dict) => Some(dict@),
                None => None,
            },
            seed_dict: match self.seed_dict {
                Some(dict) => Some(dict@),
                None => None,
            },
            model: match self.model {
                Some(model) => Some(model@),
                None => None,
            },
            mask: match self.mask {
                Some((seed, mask)) => Some((seed, mask@)),
                None => None,
            },
            message: match self.message {
                Some(encoder) => Some(encoder@),
                None => None,
            },
        }
    }
}

impl UpdateView {
    /// The state in which the update phase starts.
    pub open spec fn start(sum_signature: Signature, update_signature: Signature) -> UpdateView {
        UpdateView {
            sum_signature,
            update_signature,
            sum_dict: None,
            seed_dict: None,
            model: None,
            mask: None,
            message: None,
        }
    }

    /// Whether the sum dictionary was fetched.
    pub open spec fn has_fetched_sum_dict(self) -> bool {
        self.sum_dict is Some || self.has_loaded_model()
    }

    /// Whether the local model was loaded.
    pub open spec fn has_loaded_model(self) -> bool {
        self.model is Some || self.has_masked_model()
    }

    /// Whether the model was masked.
    pub open spec fn has_masked_model(self) -> bool {
        self.mask is Some || self.has_built_seed_dict()
    }

    /// Whether the seed dictionary was built.
    pub open spec fn has_built_seed_dict(self) -> bool {
        self.seed_dict is Some || self.has_composed_message()
    }

    /// Whether the message was composed.
    pub open spec fn has_composed_message(self) -> bool {
        self.message is Some
    }

    /// Whether the fields are as a run of the phase leaves them: none
    /// yet; the sum dictionary; with it the model; with it, in place of
    /// the model, the mask; the mask and the seed dictionary; or the
    /// message alone.
    pub open spec fn valid(self) -> bool {
        let sum_dict = self.sum_dict is Some;
        let model = self.model is Some;
        let mask = self.mask is Some;
        let seed_dict = self.seed_dict is Some;
        let message = self.message is Some;
        ||| !sum_dict && !model && !mask && !seed_dict && !message
        ||| sum_dict && !model && !mask && !seed_dict && !message
        ||| sum_dict && model && !mask && !seed_dict && !message
        ||| sum_dict && !model && mask && !seed_dict && !message
        ||| !sum_dict && !model && mask && seed_dict && !message
        ||| !sum_dict && !model && !mask && !seed_dict && message
    }
}

/// The update phase in a state.
pub open spec fn spec_update(private: UpdateView, state: StateView<UpdateView>) -> MachineView {
    MachineView::Update(StateView { private, shared: state.shared })
}

/// The sub-step that fetches the sum dictionary: a dictionary that came
/// is kept; none, and the phase is stuck.
pub open spec fn spec_fetch_sum_dict(
    state: StateView<UpdateView>,
    supply: SupplyView,
) -> ProgressView<UpdateView> {
    if state.private.has_fetched_sum_dict() {
        ProgressView::Continue(state)
    } else {
        match supply {
            SupplyView::Sums(Some(dict)) => ProgressView::Updated(
                spec_update(UpdateView { sum_dict: Some(dict), ..state.private }, state),
                None,
            ),
            _ => ProgressView::Stuck(state),
        }
    }
}

/// The sub-step that loads the local model: a model that came is kept;
/// none, and the phase is stuck.
pub open spec fn spec_load_model(
    state: StateView<UpdateView>,
    supply: SupplyView,
) -> ProgressView<UpdateView> {
    if state.private.has_loaded_model() {
        ProgressView::Continue(state)
    } else {
        match supply {
            SupplyView::Model(Some(model)) => ProgressView::Updated(
                spec_update(UpdateView { model: Some(model), ..state.private }, state),
                None,
            ),
            _ => ProgressView::Stuck(state),
        }
    }
}

/// The sub-step that masks the model: the seed and the masked model that
/// came are kept in place of the model; none, and the phase is stuck.
pub open spec fn spec_mask_model(
    state: StateView<UpdateView>,
    supply: SupplyView,
) -> ProgressView<UpdateView> {
    if state.private.has_masked_model() {
        ProgressView::Continue(state)
    } else {
        match supply {
            SupplyView::Masked(seed, mask) => ProgressView::Updated(
                spec_update(
                    UpdateView { mask: Some((seed, mask)), model: None, ..state.private },
                    state,
                ),
                None,
            ),
            _ => ProgressView::Stuck(state),
        }
    }
}

/// The seed dictionary built from a sum dictionary: under each key of
/// the sum dictionary, in the same order, the seed as it was sealed for
/// that key.
pub open spec fn spec_seed_dict(
    sum_dict: Seq<(PublicSigningKey, PublicEncryptKey)>,
    sealed: Seq<EncryptedMaskSeed>,
) -> Seq<(PublicSigningKey, EncryptedMaskSeed)> {
    Seq::new(sum_dict.len(), |i: int| (sum_dict[i].0, sealed[i]))
}

/// Whether the seed dictionary is still to be built and the mask and
/// the sum dictionary are there to build it from.
pub open spec fn spec_builds(state: StateView<UpdateView>) -> bool {
    !state.private.has_built_seed_dict() && state.private.mask is Some && state.private.sum_dict
        is Some
}

/// Whether `sealed` are `seed`, sealed once for each sum participant of
/// the sum dictionary, in its order: the sealed seed at a place opens to
/// the seed under every key pair whose public key is the ephemeral key
/// that the sum dictionary has at that place.
pub open spec fn spec_sealed_for_all(
    sealed: Seq<EncryptedMaskSeed>,
    seed: MaskSeed,
    sum_dict: Seq<(PublicSigningKey, PublicEncryptKey)>,
) -> bool {
    &&& sealed.len() == sum_dict.len()
    &&& forall|k: int|
        0 <= k < sealed.len() ==> spec_seed_sealed_for(#[trigger] sealed[k], seed, sum_dict[k].1)
}

/// Whether `sealed` can be what a step of the phase draws: where the
/// step builds the seed dictionary, they are the mask seed, sealed once
/// for each sum participant of the sum dictionary.
pub open spec fn spec_seeds_drawn(
    state: StateView<UpdateView>,
    sealed: Seq<EncryptedMaskSeed>,
) -> bool {
    spec_builds(state) ==> spec_sealed_for_all(
        sealed,
        state.private.mask.unwrap().0,
        state.private.sum_dict.unwrap(),
    )
}

/// The sub-step that builds the seed dictionary, in place of the sum
/// dictionary. A state that lacks the mask or the sum dictionary gives
/// the phase up.
pub open spec fn spec_build_seed_dict(
    state: StateView<UpdateView>,
    sealed: Seq<EncryptedMaskSeed>,
) -> ProgressView<UpdateView> {
    if state.private.has_built_seed_dict() {
        ProgressView::Continue(state)
    } else if spec_builds(state) {
        ProgressView::Updated(
            spec_update(
                UpdateView {
                    seed_dict: Some(spec_seed_dict(state.private.sum_dict.unwrap(), sealed)),
                    sum_dict: None,
                    ..state.private
                },
                state,
            ),
            None,
        )
    } else {
        ProgressView::Updated(spec_awaiting(state.shared), Some(Notification::Idle))
    }
}

/// The sub-step that composes the update message, in place of the mask
/// and the seed dictionary. A state that lacks one of them gives the
/// phase up, and so does a payload that cannot be encoded under the
/// participant's message size.
pub open spec fn spec_compose_update_message(
    state: StateView<UpdateView>,
    message_id: u16,
) -> ProgressView<UpdateView> {
    if state.private.has_composed_message() {
        ProgressView::Continue(state)
    } else if state.private.mask is Some && state.private.seed_dict is Some {
        let mask = state.private.mask.unwrap().1;
        let seed_dict = state.private.seed_dict.unwrap();
        match spec_composed(
            state.shared,
            Tag::Update,
            spec_update_fits(mask.len(), seed_dict.len()),
            spec_update_bytes(
                state.private.sum_signature,
                state.private.update_signature,
                mask,
                seed_dict,
            ),
            message_id,
        ) {
            Some(encoder) => ProgressView::Updated(
                spec_update(
                    UpdateView {
                        message: Some(encoder),
                        mask: None,
                        seed_dict: None,
                        ..state.private
                    },
                    state,
                ),
                None,
            ),
            None => ProgressView::Updated(
                spec_awaiting(state.shared),
                Some(Notification::Idle),
            ),
        }
    } else {
        ProgressView::Updated(spec_awaiting(state.shared), Some(Notification::Idle))
    }
}

/// The end of a step at a sub-step that did not say to go on.
pub open spec fn spec_update_end(progress: ProgressView<UpdateView>) -> TransitionView {
    match progress {
        ProgressView::Stuck(state) => TransitionView {
            complete: false,
            machine: MachineView::Update(state),
            notification: None,
        },
        ProgressView::Continue(state) => TransitionView {
            complete: false,
            machine: MachineView::Update(state),
            notification: None,
        },
        ProgressView::Updated(machine, notification) => TransitionView {
            complete: true,
            machine,
            notification,
        },
    }
}

/// A step of the update phase: the first sub-step that is not done yet,
/// in the order fetch, load, mask, build, compose. Where all are done
/// the message has been handed out for delivery, and whether it was
/// delivered or not, the participant has nothing more to do in this
/// round.
pub open spec fn spec_update_step(
    state: StateView<UpdateView>,
    supply: SupplyView,
    fresh: Fresh,
) -> TransitionView {
    if !(spec_fetch_sum_dict(state, supply) is Continue) {
        spec_update_end(spec_fetch_sum_dict(state, supply))
    } else if !(spec_load_model(state, supply) is Continue) {
        spec_update_end(spec_load_model(state, supply))
    } else if !(spec_mask_model(state, supply) is Continue) {
        spec_update_end(spec_mask_model(state, supply))
    } else if !(spec_build_seed_dict(state, fresh.sealed) is Continue) {
        spec_update_end(spec_build_seed_dict(state, fresh.sealed))
    } else if !(spec_compose_update_message(state, fresh.message_id) is Continue) {
        spec_update_end(spec_compose_update_message(state, fresh.message_id))
    } else {
        TransitionView {
            complete: true,
            machine: spec_awaiting(state.shared),
            notification: Some(Notification::Idle),
        }
    }
}

/// What a step of the update phase needs: what its first sub-step that
/// is not done yet works on.
pub open spec fn spec_update_demand(state: StateView<UpdateView>) -> DemandKind {
    if !state.private.has_fetched_sum_dict() {
        DemandKind::Sums
    } else if !state.private.has_loaded_model() {
        DemandKind::Model
    } else if !state.private.has_masked_model() {
        DemandKind::Masking
    } else if !state.private.has_composed_message() {
        DemandKind::Nothing
    } else {
        DemandKind::Delivery
    }
}

impl Update {
    /// The state in which the update phase starts.
    pub fn new(sum_signature: Signature, update_signature: Signature) -> (update: Self)
        ensures
            update@ == UpdateView::start(sum_signature, update_signature),
    {
        Update {
            sum_signature,
            update_signature,
            sum_dict: None,
            seed_dict: None,
            model: None,
            mask: None,
            message: None,
        }
    }

    /// Whether the fields are as a run of the phase leaves them.
    pub fn is_valid(&self) -> (valid: bool)
        ensures
            valid == self@.valid(),
    {
        let sum_dict = self.sum_dict.is_some();
        let model = self.model.is_some();
        let mask = self.mask.is_some();
        let seed_dict = self.seed_dict.is_some();
        let message = self.message.is_some();
        (!sum_dict && !model && !mask && !seed_dict && !message) || (sum_dict && !model && !mask
            && !seed_dict && !message) || (sum_dict && model && !mask && !seed_dict && !message)
            || (sum_dict && !model && mask && !seed_dict && !message) || (!sum_dict && !model
            && mask && seed_dict && !message) || (!sum_dict && !model && !mask && !seed_dict
            && message)
    }

    /// Whether the sum dictionary was fetched.
    pub fn has_fetched_sum_dict(&self) -> (done: bool)
        ensures
            done == self@.has_fetched_sum_dict(),
    {
        self.sum_dict.is_some() || self.has_loaded_model()
    }

    /// Whether the local model was loaded.
    pub fn has_loaded_model(&self) -> (done: bool)
        ensures
            done == self@.has_loaded_model(),
    {
        self.model.is_some() || self.has_masked_model()
    }

    /// Whether the model was masked.
    pub fn has_masked_model(&self) -> (done: bool)
        ensures
            done == self@.has_masked_model(),
    {
        self.mask.is_some() || self.has_built_seed_dict()
    }

    /// Whether the seed dictionary was built.
    pub fn has_built_seed_dict(&self) -> (done: bool)
        ensures
            done == self@.has_built_seed_dict(),
    {
        self.seed_dict.is_some() || self.has_composed_message()
    }

    /// Whether the message was composed.
    pub fn has_composed_message(&self) -> (done: bool)
        ensures
            done == self@.has_composed_message(),
    {
        self.message.is_some()
    }
}

/// Seals `seed` for each sum participant of `sum_dict`. The dictionary
/// that comes out has the keys of the sum dictionary, in their order,
/// and under each key the seed, sealed for the ephemeral key that the
/// sum dictionary has under that key.
fn seal_for_all(seed: &MaskSeed, sum_dict: &SumDict) -> (out: (
    LocalSeedDict,
    Ghost<Seq<EncryptedMaskSeed>>,
))
    ensures
        spec_sealed_for_all(out.1@, *seed, sum_dict@),
        out.0@ == spec_seed_dict(sum_dict@, out.1@),
{
    let n = sum_dict.len();
    let mut seeds = LocalSeedDict::new();
    let ghost mut sealed: Seq<EncryptedMaskSeed> = Seq::empty();
    let mut i: usize = 0;
    while i < n
        invariant
            i <= n,
            n == sum_dict@.len(),
            distinct_keys(sum_dict@),
            sealed.len() == i,
            forall|k: int|
                0 <= k < i ==> spec_seed_sealed_for(#[trigger] sealed[k], *seed, sum_dict@[k].1),
            seeds@ == spec_seed_dict(sum_dict@.subrange(0, i as int), sealed),
        decreases n - i,
    {
        let entry = sum_dict.entry(i);
        let value = seed.encrypt(&entry.1);
        let ghost before = seeds@;
        proof {
            assert forall|k: int| 0 <= k < before.len() implies (#[trigger] before[k]).0
                != entry.0 by {
                assert(sum_dict@[k].0 != sum_dict@[i as int].0);
            }
            assert(lacks_key(before, entry.0));
        }
        seeds.insert(entry.0, value);
        proof {
            sealed = sealed.push(value);
            assert(seeds@ =~= spec_seed_dict(sum_dict@.subrange(0, i + 1), sealed));
        }
        i += 1;
    }
    proof {
        assert(sum_dict@.subrange(0, n as int) =~= sum_dict@);
    }
    (seeds, Ghost(sealed))
}

impl Phase<Update> {
    /// The end of a step at a sub-step that did not say to go on.
    fn end(progress: Progress<Update>) -> (transition: Transition)
        ensures
            transition@ == spec_update_end(progress@),
    {
        match progress {
            Progress::Stuck(phase) => Transition {
                outcome: TransitionOutcome::Pending(StateMachine::Update(phase)),
                notification: None,
            },
            Progress::Continue(phase) => Transition {
                outcome: TransitionOutcome::Pending(StateMachine::Update(phase)),
                notification: None,
            },
            Progress::Updated(machine, notification) => Transition {
                outcome: TransitionOutcome::Complete(machine),
                notification,
            },
        }
    }

    /// Takes the sum dictionary, if the supply brings one and none was
    /// fetched before.
    pub fn fetch_sum_dict(self, supply: &Supply) -> (progress: Progress<Update>)
        ensures
            progress@ == spec_fetch_sum_dict(self@, supply@),
    {
        let mut phase = self;
        if phase.state.private.has_fetched_sum_dict() {
            return Progress::Continue(phase);
        }
        match supply {
            Supply::Sums(Ok(Some(dict))) => {
                phase.state.private.sum_dict = Some(dict.clone());
                Progress::Updated(StateMachine::Update(phase), None)
            },
            _ => Progress::Stuck(phase),
        }
    }

    /// Takes the local model, if the supply brings one and none was
    /// loaded before.
    pub fn load_model(self, supply: &Supply) -> (progress: Progress<Update>)
        ensures
            progress@ == spec_load_model(self@, supply@),
    {
        let mut phase = self;
        if phase.state.private.has_loaded_model() {
            return Progress::Continue(phase);
        }
        match supply {
            Supply::Model(Ok(Some(model))) => {
                phase.state.private.model = Some(model.clone());
                Progress::Updated(StateMachine::Update(phase), None)
            },
            _ => Progress::Stuck(phase),
        }
    }

    /// Takes the seed and the masked model in place of the model, if the
    /// supply brings them and the model was not masked before.
    pub fn mask_model(self, supply: &Supply) -> (progress: Progress<Update>)
        ensures
            progress@ == spec_mask_model(self@, supply@),
    {
        let mut phase = self;
        if phase.state.private.has_masked_model() {
            return Progress::Continue(phase);
        }
        match supply {
            Supply::Masked(seed, mask) => {
                phase.state.private.model = None;
                phase.state.private.mask = Some((*seed, mask.clone()));
                Progress::Updated(StateMachine::Update(phase), None)
            },
            _ => Progress::Stuck(phase),
        }
    }

    /// Builds the seed dictionary from the sum dictionary, if it was not
    /// built before: the mask seed is sealed for each sum participant.
    /// Sealing draws fresh randomness, so the bytes of the sealed seeds
    /// are left open. Whatever they are, there is one for each key of
    /// the sum dictionary, under that key and in the order of the sum
    /// dictionary, and it opens to the mask seed for the sum participant
    /// whose ephemeral key the sum dictionary has under that key.
    pub fn build_seed_dict(self) -> (progress: Progress<Update>)
        ensures
            exists|sealed: Seq<EncryptedMaskSeed>|
                progress@ == #[trigger] spec_build_seed_dict(self@, sealed) && spec_seeds_drawn(
                    self@,
                    sealed,
                ),
    {
        let ghost before = self@;
        let ghost none: Seq<EncryptedMaskSeed> = Seq::empty();
        let mut phase = self;
        if phase.state.private.has_built_seed_dict() {
            let progress = Progress::Continue(phase);
            assert(progress@ == spec_build_seed_dict(before, none));
            return progress;
        }
        let sum_dict = phase.state.private.sum_dict.take();
        match (&phase.state.private.mask, sum_dict) {
            (Some(mask), Some(sum_dict)) => {
                let (seeds, Ghost(sealed)) = seal_for_all(&mask.0, &sum_dict);
                phase.state.private.seed_dict = Some(seeds);
                let progress = Progress::Updated(StateMachine::Update(phase), None);
                assert(progress@ == spec_build_seed_dict(before, sealed));
                progress
            },
            _ => {
                let progress = Progress::Updated(
                    StateMachine::Awaiting(phase.into_awaiting()),
                    Some(Notification::Idle),
                );
                assert(progress@ == spec_build_seed_dict(before, none));
                progress
            },
        }
    }

    /// Composes the update message, if it is not there yet: the two
    /// signatures, the masked model and the seed dictionary, under a
    /// message id that is drawn at random.
    pub fn compose_update_message(self) -> (progress: Progress<Update>)
        ensures
            exists|message_id: u16|
                progress@ == #[trigger] spec_compose_update_message(self@, message_id),
    {
        let ghost before = self@;
        let mut phase = self;
        if phase.state.private.has_composed_message() {
            let progress = Progress::Continue(phase);
            assert(progress@ == spec_compose_update_message(before, 0u16));
            return progress;
        }
        let mask = phase.state.private.mask.take();
        let seed_dict = phase.state.private.seed_dict.take();
        match (mask, seed_dict) {
            (Some(mask), Some(seed_dict)) => {
                let update = UpdateMessage {
                    sum_signature: phase.state.private.sum_signature,
                    update_signature: phase.state.private.update_signature,
                    masked_model: mask.1,
                    local_seed_dict: seed_dict,
                };
                match phase.message_encoder(Payload::Update(update)) {
                    Ok(encoder) => {
                        let ghost message_id = encoder@.message_id;
                        phase.state.private.message = Some(encoder);
                        let progress = Progress::Updated(StateMachine::Update(phase), None);
                        assert(progress@ == spec_compose_update_message(before, message_id));
                        progress
                    },
                    Err(_) => {
                        let progress = Progress::Updated(
                            StateMachine::Awaiting(phase.into_awaiting()),
                            Some(Notification::Idle),
                        );
                        assert(progress@ == spec_compose_update_message(before, 0u16));
                        progress
                    },
                }
            },
            _ => {
                let progress = Progress::Updated(
                    StateMachine::Awaiting(phase.into_awaiting()),
                    Some(Notification::Idle),
                );
                assert(progress@ == spec_compose_update_message(before, 0u16));
                progress
            },
        }
    }

    /// What the next step needs: what its first sub-step that is not
    /// done yet works on. Masking comes with the model to mask; a
    /// delivery comes with the packets of the message, sealed.
    pub fn demand(&self) -> (demand: Demand<'_>)
        ensures
            demand.spec_kind() == spec_update_demand(self@),
            match demand {
                Demand::Masking { config, scalar, model } => config
                    == self.state.shared.mask_config && scalar == self.state.shared.scalar
                    && self@.private.model == Some(model@),
                Demand::Delivery(packets) => self@.private.message is Some && spec_sealed(
                    packets@,
                    self@.private.message.unwrap(),
                    self.state.shared.round_params.pk,
                ),
                _ => true,
            },
    {
        let private = &self.state.private;
        if !private.has_fetched_sum_dict() {
            Demand::Sums
        } else if !private.has_loaded_model() {
            Demand::Model
        } else if !private.has_masked_model() {
            match &private.model {
                Some(model) => Demand::Masking {
                    config: self.state.shared.mask_config,
                    scalar: self.state.shared.scalar,
                    model,
                },
                None => Demand::Nothing,
            }
        } else {
            match &private.message {
                Some(encoder) => Demand::Delivery(self.sealed_packets(encoder)),
                None => Demand::Nothing,
            }
        }
    }
}

impl Step for Phase<Update> {
    open spec fn spec_step(self, supply: SupplyView, fresh: Fresh) -> TransitionView {
        spec_update_step(self@, supply, fresh)
    }

    open spec fn spec_drawn(self, fresh: Fresh) -> bool {
        spec_seeds_drawn(self@, fresh.sealed)
    }

    /// A step of the update phase. Where the step builds the seed
    /// dictionary, the sealed seeds that it draws are, whatever their
    /// bytes, the mask seed sealed for each sum participant.
    fn step(self, supply: &Supply) -> (transition: Transition) {
        let ghost origin = self;
        let ghost before = self@;
        let ghost any: Fresh = arbitrary();
        let phase = match self.fetch_sum_dict(supply) {
            Progress::Continue(phase) => phase,
            progress => {
                let transition = Self::end(progress);
                assert(transition@ == origin.spec_step(supply@, any));
                return transition;
            },
        };
        let phase = match phase.load_model(supply) {
            Progress::Continue(phase) => phase,
            progress => {
                let transition = Self::end(progress);
                assert(transition@ == origin.spec_step(supply@, any));
                return transition;
            },
        };
        let phase = match phase.mask_model(supply) {
            Progress::Continue(phase) => phase,
            progress => {
                let transition = Self::end(progress);
                assert(transition@ == origin.spec_step(supply@, any));
                return transition;
            },
        };
        let built = phase.build_seed_dict();
        let ghost sealed = choose|sealed: Seq<EncryptedMaskSeed>|
            built@ == #[trigger] spec_build_seed_dict(before, sealed) && spec_seeds_drawn(
                before,
                sealed,
            );
        let phase = match built {
            Progress::Continue(phase) => phase,
            progress => {
                let transition = Self::end(progress);
                assert(transition@ == origin.spec_step(supply@, Fresh { sealed, ..any }));
                return transition;
            },
        };
        let composed = phase.compose_update_message();
        let ghost message_id = choose|message_id: u16|
            composed@ == #[trigger] spec_compose_update_message(before, message_id);
        let ghost fresh = Fresh { sealed, message_id, ..any };
        let phase = match composed {
            Progress::Continue(phase) => phase,
            progress => {
                let transition = Self::end(progress);
                assert(transition@ == origin.spec_step(supply@, fresh));
                return transition;
            },
        };
        let transition = Transition {
            outcome: TransitionOutcome::Complete(StateMachine::Awaiting(phase.into_awaiting())),
            notification: Some(Notification::Idle),
        };
        assert(transition@ == origin.spec_step(supply@, fresh));
        transition
    }
}

} // verus!
