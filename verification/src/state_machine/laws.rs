//! What holds of every run of the state machine.

use vstd::prelude::*;
use crate::common::RoundParameters;
use crate::crypto::{
    spec_is_eligible, EncryptKeyPair, PublicEncryptKey, PublicSigningKey, Ratio,
};
use crate::dict::spec_keys;
use crate::mask::{spec_open_seed, spec_seed_sealed_for, EncryptedMaskSeed, MaskSeed};
use crate::state_machine::io::{DemandKind, IoError, Notification, SupplyView};
use crate::state_machine::phase::{Fresh, SharedState, StateView};
use crate::state_machine::phases::new_round::spec_role_signature;
use crate::state_machine::phases::sum::{spec_sum_demand, spec_sum_step, SumView};
use crate::state_machine::phases::sum2::{spec_sum2_demand, spec_sum2_step, Sum2View};
use crate::state_machine::phases::update::{
    spec_seed_dict, spec_update_demand, spec_update_step, UpdateView,
};
use crate::state_machine::state_machine::{
    spec_demand, spec_drawn, spec_new_round, spec_proceed, spec_transition, MachineView, SerializableState,
    StateMachine, TransitionView, TurnView,
};

verus! {

/// Whether a field that was filled is either as it was or was used up.
pub open spec fn kept_or_used<T>(before: Option<T>, after: Option<T>) -> bool {
    before is Some ==> after == before || after is None
}

/// Freshness comes first. Whatever phase the participant is in and
/// whatever that phase holds: when the coordinator gives round
/// parameters other than those the participant holds, the tick ends in
/// the new-round phase with the parameters that were given, the host is
/// told of the new round, and no step of the phase is made.
pub proof fn lemma_freshness_precedence(machine: MachineView, params: RoundParameters)
    requires
        params != machine.shared().round_params,
    ensures
        spec_transition(machine, Ok(params)) == TurnView::Done(
            TransitionView {
                complete: true,
                machine: spec_new_round(
                    SharedState { round_params: params, ..machine.shared() },
                ),
                notification: Some(Notification::NewRound),
            },
        ),
{
}

/// Without an answer from the coordinator nothing changes, and with the
/// parameters the participant holds the phase goes on from where it is.
pub proof fn lemma_same_round_goes_on(machine: MachineView, error: IoError)
    ensures
        spec_transition(machine, Err(error)) == TurnView::Done(
            TransitionView { complete: false, machine, notification: None },
        ),
        spec_transition(machine, Ok(machine.shared().round_params)) == TurnView::Fresh(machine),
{
}

/// Every step leads to the same phase or to one of its successors: from
/// the new-round phase to the sum, the update or the awaiting phase; from
/// the sum phase to the sum2 or the awaiting phase; from the update and
/// the sum2 phase to the awaiting phase; and the awaiting phase is left
/// by no step.
pub proof fn lemma_phase_successors(machine: MachineView, supply: SupplyView, fresh: Fresh)
    ensures
        match machine {
            MachineView::NewRound(_) => {
                let after = spec_proceed(machine, supply, fresh).machine;
                after is Sum || after is Update || after is Awaiting
            },
            MachineView::Awaiting(_) => spec_proceed(machine, supply, fresh).machine == machine,
            MachineView::Sum(_) => {
                let after = spec_proceed(machine, supply, fresh).machine;
                after is Sum || after is Sum2 || after is Awaiting
            },
            MachineView::Update(_) => {
                let after = spec_proceed(machine, supply, fresh).machine;
                after is Update || after is Awaiting
            },
            MachineView::Sum2(_) => {
                let after = spec_proceed(machine, supply, fresh).machine;
                after is Sum2 || after is Awaiting
            },
        },
{
}

/// A step that is pending has changed nothing and has nothing to tell
/// the host.
pub proof fn lemma_pending_changes_nothing(
    machine: MachineView,
    supply: SupplyView,
    fresh: Fresh,
)
    ensures
        !spec_proceed(machine, supply, fresh).complete ==> spec_proceed(
            machine,
            supply,
            fresh,
        ).machine == machine && spec_proceed(machine, supply, fresh).notification is None,
{
}

/// A step that asks for nothing from outside is never pending, except
/// in the awaiting phase: what can be computed is computed at once.
pub proof fn lemma_nothing_asked_is_never_stuck(
    machine: MachineView,
    supply: SupplyView,
    fresh: Fresh,
)
    requires
        machine.valid(),
        spec_demand(machine) == DemandKind::Nothing,
        !(machine is Awaiting),
    ensures
        spec_proceed(machine, supply, fresh).complete,
{
}

/// A step leaves the shared state as it is.
pub proof fn lemma_step_keeps_shared(machine: MachineView, supply: SupplyView, fresh: Fresh)
    ensures
        spec_proceed(machine, supply, fresh).machine.shared() == machine.shared(),
{
}

/// A step of the sum phase never makes the message again: a message
/// that is there stays as it is while the phase lasts, and asks for
/// nothing but its delivery.
pub proof fn lemma_sum_message_is_kept(
    state: StateView<SumView>,
    supply: SupplyView,
    message_id: u16,
)
    ensures
        match spec_sum_step(state, supply, message_id).machine {
            MachineView::Sum(after) => state.private.message is Some ==> after.private.message
                == state.private.message,
            _ => true,
        },
        match spec_sum_step(state, supply, message_id).machine {
            MachineView::Sum(after) => after.private.ephm_keys == state.private.ephm_keys
                && after.private.sum_signature == state.private.sum_signature,
            MachineView::Sum2(after) => after.private.ephm_keys == state.private.ephm_keys
                && after.private.sum_signature == state.private.sum_signature,
            _ => true,
        },
        state.private.message is Some ==> spec_sum_demand(state) == DemandKind::Delivery,
{
}

/// A step of the update phase never does a sub-step again. While the
/// phase lasts, a sub-step that was done stays done; a field that was
/// filled holds what it held, or was used up by a later sub-step; and
/// the signatures are those the phase started with.
pub proof fn lemma_update_progress_is_kept(
    state: StateView<UpdateView>,
    supply: SupplyView,
    fresh: Fresh,
)
    ensures
        match spec_update_step(state, supply, fresh).machine {
            MachineView::Update(after) => {
                let before = state.private;
                let after = after.private;
                &&& before.has_fetched_sum_dict() ==> after.has_fetched_sum_dict()
                &&& before.has_loaded_model() ==> after.has_loaded_model()
                &&& before.has_masked_model() ==> after.has_masked_model()
                &&& before.has_built_seed_dict() ==> after.has_built_seed_dict()
                &&& before.has_composed_message() ==> after.has_composed_message()
                &&& kept_or_used(before.sum_dict, after.sum_dict)
                &&& kept_or_used(before.model, after.model)
                &&& kept_or_used(before.mask, after.mask)
                &&& kept_or_used(before.seed_dict, after.seed_dict)
                &&& kept_or_used(before.message, after.message)
                &&& after.sum_signature == before.sum_signature
                &&& after.update_signature == before.update_signature
            },
            _ => true,
        },
{
}

/// A sub-step of the update phase that was done asks for nothing again.
pub proof fn lemma_update_asks_once(state: StateView<UpdateView>)
    ensures
        state.private.has_fetched_sum_dict() ==> spec_update_demand(state) != DemandKind::Sums,
        state.private.has_loaded_model() ==> spec_update_demand(state) != DemandKind::Sums
            && spec_update_demand(state) != DemandKind::Model,
        state.private.has_masked_model() ==> spec_update_demand(state) != DemandKind::Sums
            && spec_update_demand(state) != DemandKind::Model && spec_update_demand(state)
            != DemandKind::Masking,
{
}

/// A step of the sum2 phase never does a sub-step again. While the
/// phase lasts, a sub-step that was done stays done; a field that was
/// filled holds what it held, or was used up by a later sub-step; and
/// the keys and the signature are those the phase started with.
pub proof fn lemma_sum2_progress_is_kept(
    state: StateView<Sum2View>,
    supply: SupplyView,
    message_id: u16,
)
    ensures
        match spec_sum2_step(state, supply, message_id).machine {
            MachineView::Sum2(after) => {
                let before = state.private;
                let after = after.private;
                &&& before.has_fetched_mask_length() ==> after.has_fetched_mask_length()
                &&& before.has_fetched_seed_dict() ==> after.has_fetched_seed_dict()
                &&& before.has_decrypted_seeds() ==> after.has_decrypted_seeds()
                &&& before.has_aggregated_masks() ==> after.has_aggregated_masks()
                &&& before.has_composed_message() ==> after.has_composed_message()
                &&& before.mask_length is Some ==> after.mask_length == before.mask_length
                &&& kept_or_used(before.seed_dict, after.seed_dict)
                &&& kept_or_used(before.seeds, after.seeds)
                &&& kept_or_used(before.mask, after.mask)
                &&& kept_or_used(before.message, after.message)
                &&& after.ephm_keys == before.ephm_keys
                &&& after.sum_signature == before.sum_signature
            },
            _ => true,
        },
{
}

/// A sub-step of the sum2 phase that was done asks for nothing again.
pub proof fn lemma_sum2_asks_once(state: StateView<Sum2View>)
    ensures
        state.private.has_fetched_mask_length() ==> spec_sum2_demand(state)
            != DemandKind::MaskLength,
        state.private.has_fetched_seed_dict() ==> spec_sum2_demand(state)
            != DemandKind::MaskLength && spec_sum2_demand(state) != DemandKind::Seeds,
        state.private.has_aggregated_masks() ==> spec_sum2_demand(state)
            != DemandKind::Aggregation,
{
}

/// A step keeps the state as a run of the phase leaves it: after a step
/// from such a state, with draws of which holds what holds of every
/// draw, the state is such a state again.
pub proof fn lemma_step_keeps_valid(machine: MachineView, supply: SupplyView, fresh: Fresh)
    requires
        machine.valid(),
        spec_drawn(machine, fresh),
    ensures
        spec_proceed(machine, supply, fresh).machine.valid(),
{
}

/// The first half of a tick keeps the state as a run of the phase leaves
/// it.
pub proof fn lemma_transition_keeps_valid(
    machine: MachineView,
    answer: Result<RoundParameters, IoError>,
)
    requires
        machine.valid(),
    ensures
        match spec_transition(machine, answer) {
            TurnView::Done(transition) => transition.machine.valid(),
            TurnView::Fresh(after) => after.valid(),
        },
{
}

/// In a state as a run of the phase leaves it, a sub-step finds what it
/// works on: the update phase is never given up for want of a field.
pub proof fn lemma_update_finds_its_fields(state: StateView<UpdateView>)
    requires
        state.private.valid(),
    ensures
        state.private.has_loaded_model() && !state.private.has_masked_model()
            ==> state.private.model is Some,
        state.private.has_masked_model() && !state.private.has_built_seed_dict()
            ==> state.private.mask is Some && state.private.sum_dict is Some,
        state.private.has_built_seed_dict() && !state.private.has_composed_message()
            ==> state.private.mask is Some && state.private.seed_dict is Some,
{
}

/// In a state as a run of the phase leaves it, a sub-step finds what it
/// works on: the sum2 phase is never given up for want of a field.
pub proof fn lemma_sum2_finds_its_fields(state: StateView<Sum2View>)
    requires
        state.private.valid(),
    ensures
        state.private.has_fetched_seed_dict() && !state.private.has_decrypted_seeds()
            ==> state.private.seed_dict is Some,
        state.private.has_decrypted_seeds() && !state.private.has_aggregated_masks()
            ==> state.private.seeds is Some && state.private.mask_length is Some,
        state.private.has_aggregated_masks() && !state.private.has_composed_message()
            ==> state.private.mask is Some,
{
}

/// Eligibility is determined. Two participants with the same secret key
/// in rounds with the same seed sign a role with the same signature, and
/// a signature is eligible at a threshold or it is not: nothing else
/// enters.
pub proof fn lemma_eligibility_is_determined(
    one: SharedState,
    other: SharedState,
    role: Seq<u8>,
    threshold: Ratio,
)
    requires
        one.keys.secret == other.keys.secret,
        one.round_params.seed == other.round_params.seed,
    ensures
        spec_role_signature(one, role) == spec_role_signature(other, role),
        spec_is_eligible(spec_role_signature(one, role), threshold) == spec_is_eligible(
            spec_role_signature(other, role),
            threshold,
        ),
{
}

/// The seed dictionary that the update phase builds has the keys of the
/// sum dictionary, each once, in the order of the sum dictionary.
pub proof fn lemma_seed_dict_has_the_keys(
    sum_dict: Seq<(PublicSigningKey, PublicEncryptKey)>,
    sealed: Seq<EncryptedMaskSeed>,
)
    ensures
        spec_seed_dict(sum_dict, sealed).len() == sum_dict.len(),
        spec_keys(spec_seed_dict(sum_dict, sealed)) == spec_keys(sum_dict),
{
    assert(spec_keys(spec_seed_dict(sum_dict, sealed)) =~= spec_keys(sum_dict));
}

/// Keeping a state and taking it up again changes nothing that a tick
/// can tell. Where `saved` is what `save` makes of `machine` and
/// `restored` what `restore` makes of `saved`, the restored state
/// machine asks for the same, and makes of the same answers and the same
/// draws the same steps, as the one that was kept.
pub proof fn lemma_save_restore(
    machine: StateMachine,
    saved: SerializableState,
    restored: StateMachine,
    answer: Result<RoundParameters, IoError>,
    supply: SupplyView,
    fresh: Fresh,
)
    requires
        saved@ == machine@,
        restored@ == saved@,
    ensures
        spec_transition(restored@, answer) == spec_transition(machine@, answer),
        spec_demand(restored@) == spec_demand(machine@),
        spec_proceed(restored@, supply, fresh) == spec_proceed(machine@, supply, fresh),
{
}

/// What an update participant seals for a sum participant, the sum
/// participant opens: a seed that was sealed for the ephemeral public key
/// of a sum participant opens to that seed under the participant's
/// ephemeral keys, which are a pair.
pub proof fn lemma_sealed_seed_opens(
    sealed: EncryptedMaskSeed,
    seed: MaskSeed,
    keys: EncryptKeyPair,
)
    requires
        spec_seed_sealed_for(sealed, seed, keys.public),
        keys.spec_matches(),
    ensures
        spec_open_seed(sealed, keys) == Some(seed),
{
}

} // verus!
