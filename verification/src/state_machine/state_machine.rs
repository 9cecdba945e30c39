//! The state machine of a participant.
//!
//! A tick of the driver has two halves. In the first the driver asks the
//! coordinator for the round parameters and hands the answer to
//! `transition`: no answer ends the tick with nothing changed; another
//! round ends it in the new-round phase; the same round leaves the state
//! machine as it is, to go on. In the second half the driver meets the
//! `demand` of the current phase and hands what came of it to `proceed`,
//! which makes one step of the phase.

use vstd::prelude::*;
use crate::common::{spec_unset, RoundParameters};
use crate::message::encoder::EncoderView;
use crate::settings::AgentSettings;
use crate::state_machine::io::{Demand, DemandKind, IoError, Notification, Supply, SupplyView};
use crate::state_machine::phase::{
    spec_freshness, spec_refreshed, spec_sealed, Fresh, Phase, Refreshed, RoundFreshness,
    SharedState, State, StateView, Step,
};
use crate::state_machine::phases::awaiting::{spec_awaiting_step, Awaiting};
use crate::state_machine::laws::lemma_step_keeps_valid;
use crate::state_machine::phases::new_round::{
    spec_new_round_drawn, spec_new_round_step, NewRound,
};
use crate::state_machine::phases::sum::{spec_sum_demand, spec_sum_step, Sum, SumView};
use crate::state_machine::phases::sum2::{spec_sum2_demand, spec_sum2_step, Sum2, Sum2View};
use crate::state_machine::phases::update::{
    spec_seeds_drawn, spec_update_demand, spec_update_step, Update, UpdateView,
};

verus! {

/// The state machine: the phase the participant is in, with its state.
#[derive(Clone, Debug, PartialEq, Eq)]
pub enum StateMachine {
    NewRound(Phase<NewRound>),
    Awaiting(Phase<Awaiting>),
    Sum(Phase<Sum>),
    Update(Phase<Update>),
    Sum2(Phase<Sum2>),
}

/// What a step came to.
#[derive(Clone, Debug, PartialEq, Eq)]
pub enum TransitionOutcome {
    /// Nothing changed. The driver should sleep before the next tick.
    Pending(StateMachine),
    /// Something changed: a field was filled, or the phase is another.
    /// The driver should go on at once.
    Complete(StateMachine),
}

/// What a step came to, and what to tell the host.
#[derive(Clone, Debug, PartialEq, Eq)]
pub struct Transition {
    pub outcome: TransitionOutcome,
    pub notification: Option<Notification>,
}

/// What the first half of a tick came to.
#[derive(Clone, Debug, PartialEq, Eq)]
pub enum Turn {
    /// The tick is over.
    Done(Transition),
    /// The round is still the same: the phase goes on.
    Fresh(StateMachine),
}

/// The state of a state machine, in a form that can be kept between two
/// runs of the participant.
#[derive(Clone, Debug, PartialEq, Eq)]
pub enum SerializableState {
    NewRound(State<NewRound>),
    Awaiting(State<Awaiting>),
    Sum(State<Sum>),
    Update(State<Update>),
    Sum2(State<Sum2>),
}

/// A state machine, as the contracts speak of it. A state that is kept
/// is spoken of in the same way.
pub enum MachineView {
    NewRound(StateView<NewRound>),
    Awaiting(StateView<Awaiting>),
    Sum(StateView<SumView>),
    Update(StateView<UpdateView>),
    Sum2(StateView<Sum2View>),
}

/// What a step came to, as the contracts speak of it.
pub struct TransitionView {
    /// Whether something changed.
    pub complete: bool,
    /// The state machine after the step.
    pub machine: MachineView,
    /// What to tell the host.
    pub notification: Option<Notification>,
}

/// What the first half of a tick came to, as the contracts speak of it.
pub enum TurnView {
    Done(TransitionView),
    Fresh(MachineView),
}

impl View for StateMachine {
    type V = MachineView;

    open spec fn view(&self) -> MachineView {
        match self {
            StateMachine::NewRound(phase) => MachineView::NewRound(phase@),
            StateMachine::Awaiting(phase) => MachineView::Awaiting(phase@),
            StateMachine::Sum(phase) => MachineView::Sum(phase@),
            StateMachine::Update(phase) => MachineView::Update(phase@),
            StateMachine::Sum2(phase) => MachineView::Sum2(phase@),
        }
    }
}

impl View for SerializableState {
    type V = MachineView;

    open spec fn view(&self) -> MachineView {
        match self {
            SerializableState::NewRound(state) => MachineView::NewRound(state@),
            SerializableState::Awaiting(state) => MachineView::Awaiting(state@),
            SerializableState::Sum(state) => MachineView::Sum(state@),
            SerializableState::Update(state) => MachineView::Update(state@),
            SerializableState::Sum2(state) => MachineView::Sum2(state@),
        }
    }
}

impl View for Transition {
    type V = TransitionView;

    open spec fn view(&self) -> TransitionView {
        match self.outcome {
            TransitionOutcome::Pending(machine) => TransitionView {
                complete: false,
                machine: machine@,
                notification: self.notification,
            },
            TransitionOutcome::Complete(machine) => TransitionView {
                complete: true,
                machine: machine@,
                notification: self.notification,
            },
        }
    }
}

impl View for Turn {
    type V = TurnView;

    open spec fn view(&self) -> TurnView {
        match self {
            Turn::Done(transition) => TurnView::Done(transition@),
            Turn::Fresh(machine) => TurnView::Fresh(machine@),
        }
    }
}

impl MachineView {
    /// The shared state.
    pub open spec fn shared(self) -> SharedState {
        match self {
            MachineView::NewRound(state) => state.shared,
            MachineView::Awaiting(state) => state.shared,
            MachineView::Sum(state) => state.shared,
            MachineView::Update(state) => state.shared,
            MachineView::Sum2(state) => state.shared,
        }
    }

    /// Whether the two are in the same phase.
    pub open spec fn same_phase(self, other: MachineView) -> bool {
        match (self, other) {
            (MachineView::NewRound(_), MachineView::NewRound(_)) => true,
            (MachineView::Awaiting(_), MachineView::Awaiting(_)) => true,
            (MachineView::Sum(_), MachineView::Sum(_)) => true,
            (MachineView::Update(_), MachineView::Update(_)) => true,
            (MachineView::Sum2(_), MachineView::Sum2(_)) => true,
            _ => false,
        }
    }

    /// Whether what is the phase's own is as a run of the phase leaves
    /// it: the sub-steps were done in their order, each field was filled
    /// by its sub-step and emptied by the one that uses it up, and the
    /// ephemeral keys of a sum participant are a pair.
    pub open spec fn valid(self) -> bool {
        match self {
            MachineView::Sum(state) => state.private.valid(),
            MachineView::Update(state) => state.private.valid(),
            MachineView::Sum2(state) => state.private.valid(),
            _ => true,
        }
    }
}

/// The awaiting phase over a shared state.
pub open spec fn spec_awaiting(shared: SharedState) -> MachineView {
    MachineView::Awaiting(StateView { private: Awaiting, shared })
}

/// The new-round phase over a shared state.
pub open spec fn spec_new_round(shared: SharedState) -> MachineView {
    MachineView::NewRound(StateView { private: NewRound, shared })
}

/// The first half of a tick. Without an answer nothing changes and the
/// tick is over. With the parameters of another round the state machine
/// takes them, drops what its phase held and is in the new-round phase;
/// the host is told of the new round and the tick is over. With the
/// parameters of the same round the state machine is left as it is, for
/// its phase to go on.
pub open spec fn spec_transition(
    machine: MachineView,
    answer: Result<RoundParameters, IoError>,
) -> TurnView {
    match spec_freshness(machine.shared(), answer) {
        RoundFreshness::Unknown => TurnView::Done(
            TransitionView { complete: false, machine, notification: None },
        ),
        RoundFreshness::Outdated => TurnView::Done(
            TransitionView {
                complete: true,
                machine: spec_new_round(spec_refreshed(machine.shared(), answer)),
                notification: Some(Notification::NewRound),
            },
        ),
        RoundFreshness::Fresh => TurnView::Fresh(machine),
    }
}

/// One step of the phase the state machine is in.
pub open spec fn spec_proceed(machine: MachineView, supply: SupplyView, fresh: Fresh) -> TransitionView {
    match machine {
        MachineView::NewRound(state) => spec_new_round_step(state, fresh.ephm_keys),
        MachineView::Awaiting(state) => spec_awaiting_step(state),
        MachineView::Sum(state) => spec_sum_step(state, supply, fresh.message_id),
        MachineView::Update(state) => spec_update_step(state, supply, fresh),
        MachineView::Sum2(state) => spec_sum2_step(state, supply, fresh.message_id),
    }
}

/// What holds of whatever a step of the state machine draws at random:
/// the ephemeral keys with which the new-round phase leads into the sum
/// phase are a pair, and the sealed seeds of which the update phase
/// builds the seed dictionary are the mask seed, sealed once for each
/// sum participant.
pub open spec fn spec_drawn(machine: MachineView, fresh: Fresh) -> bool {
    match machine {
        MachineView::NewRound(state) => spec_new_round_drawn(state, fresh.ephm_keys),
        MachineView::Update(state) => spec_seeds_drawn(state, fresh.sealed),
        _ => true,
    }
}

/// What the next step of the state machine needs from outside.
pub open spec fn spec_demand(machine: MachineView) -> DemandKind {
    match machine {
        MachineView::NewRound(_) => DemandKind::Nothing,
        MachineView::Awaiting(_) => DemandKind::Nothing,
        MachineView::Sum(state) => spec_sum_demand(state),
        MachineView::Update(state) => spec_update_demand(state),
        MachineView::Sum2(state) => spec_sum2_demand(state),
    }
}

/// The message that a state machine holds composed, if it holds one.
pub open spec fn spec_message(machine: MachineView) -> Option<EncoderView> {
    match machine {
        MachineView::Sum(state) => state.private.message,
        MachineView::Update(state) => state.private.message,
        MachineView::Sum2(state) => state.private.message,
        _ => None,
    }
}

/// Whether a demand comes with what the state machine holds for it: the
/// participant's key with the demand for seeds; the model, the scalar
/// and the configuration with the demand for masking; the seeds, the
/// length and the configuration with the demand for aggregation; and
/// with a delivery the packets of the composed message, in their order,
/// each sealed for the coordinator of the round.
pub open spec fn spec_demand_matches(machine: MachineView, demand: Demand<'_>) -> bool {
    match demand {
        Demand::Seeds(pk) => pk == machine.shared().keys.public,
        Demand::Masking { config, scalar, model } => {
            &&& machine is Update
            &&& config == machine.shared().mask_config
            &&& scalar == machine.shared().scalar
            &&& machine->Update_0.private.model == Some(model@)
        },
        Demand::Aggregation { config, mask_length, seeds } => {
            &&& machine is Sum2
            &&& config == machine.shared().mask_config
            &&& machine->Sum2_0.private.mask_length == Some(mask_length)
            &&& machine->Sum2_0.private.seeds == Some(seeds@)
        },
        Demand::Delivery(packets) => {
            &&& spec_message(machine) is Some
            &&& spec_sealed(
                packets@,
                spec_message(machine).unwrap(),
                machine.shared().round_params.pk,
            )
        },
        _ => true,
    }
}

impl SerializableState {
    /// Whether the state is as a run of its phase leaves it. A state
    /// machine that starts from such a state stays in such states, and
    /// never gives a phase up for want of a field.
    pub fn is_valid(&self) -> (valid: bool)
        ensures
            valid == self@.valid(),
    {
        match self {
            SerializableState::Sum(state) => state.private.is_valid(),
            SerializableState::Update(state) => state.private.is_valid(),
            SerializableState::Sum2(state) => state.private.is_valid(),
            _ => true,
        }
    }
}

impl StateMachine {
    /// The state machine of a participant that has seen no round yet: it
    /// waits.
    pub fn new(settings: AgentSettings) -> (machine: Self)
        ensures
            machine@ is Awaiting,
            machine@.shared().keys == settings.keys,
            machine@.shared().mask_config == settings.mask_config,
            machine@.shared().scalar == settings.scalar,
            machine@.shared().message_size == settings.max_message_size,
            spec_unset(machine@.shared().round_params),
            machine@.valid(),
    {
        let state = State::new(SharedState::new(settings), Awaiting);
        StateMachine::Awaiting(Phase::new(state))
    }

    /// The state of the state machine, to be kept.
    pub fn save(self) -> (state: SerializableState)
        ensures
            state@ == self@,
    {
        match self {
            StateMachine::NewRound(phase) => SerializableState::NewRound(phase.state),
            StateMachine::Awaiting(phase) => SerializableState::Awaiting(phase.state),
            StateMachine::Sum(phase) => SerializableState::Sum(phase.state),
            StateMachine::Update(phase) => SerializableState::Update(phase.state),
            StateMachine::Sum2(phase) => SerializableState::Sum2(phase.state),
        }
    }

    /// The state machine that was in `state` when it was kept.
    pub fn restore(state: SerializableState) -> (machine: Self)
        ensures
            machine@ == state@,
    {
        match state {
            SerializableState::NewRound(state) => StateMachine::NewRound(Phase::new(state)),
            SerializableState::Awaiting(state) => StateMachine::Awaiting(Phase::new(state)),
            SerializableState::Sum(state) => StateMachine::Sum(Phase::new(state)),
            SerializableState::Sum2(state) => StateMachine::Sum2(Phase::new(state)),
            SerializableState::Update(state) => StateMachine::Update(Phase::new(state)),
        }
    }

    /// The first half of a tick: takes the coordinator's answer to the
    /// question for the round parameters.
    pub fn transition(self, answer: Result<RoundParameters, IoError>) -> (turn: Turn)
        ensures
            turn@ == spec_transition(self@, answer),
    {
        match self {
            StateMachine::NewRound(phase) => match phase.refresh(answer) {
                Refreshed::Unknown(phase) => Self::unchanged(StateMachine::NewRound(phase)),
                Refreshed::Outdated(phase) => Self::new_round(phase),
                Refreshed::Fresh(phase) => Turn::Fresh(StateMachine::NewRound(phase)),
            },
            StateMachine::Awaiting(phase) => match phase.refresh(answer) {
                Refreshed::Unknown(phase) => Self::unchanged(StateMachine::Awaiting(phase)),
                Refreshed::Outdated(phase) => Self::new_round(phase),
                Refreshed::Fresh(phase) => Turn::Fresh(StateMachine::Awaiting(phase)),
            },
            StateMachine::Sum(phase) => match phase.refresh(answer) {
                Refreshed::Unknown(phase) => Self::unchanged(StateMachine::Sum(phase)),
                Refreshed::Outdated(phase) => Self::new_round(phase),
                Refreshed::Fresh(phase) => Turn::Fresh(StateMachine::Sum(phase)),
            },
            StateMachine::Update(phase) => match phase.refresh(answer) {
                Refreshed::Unknown(phase) => Self::unchanged(StateMachine::Update(phase)),
                Refreshed::Outdated(phase) => Self::new_round(phase),
                Refreshed::Fresh(phase) => Turn::Fresh(StateMachine::Update(phase)),
            },
            StateMachine::Sum2(phase) => match phase.refresh(answer) {
                Refreshed::Unknown(phase) => Self::unchanged(StateMachine::Sum2(phase)),
                Refreshed::Outdated(phase) => Self::new_round(phase),
                Refreshed::Fresh(phase) => Turn::Fresh(StateMachine::Sum2(phase)),
            },
        }
    }

    /// The end of a tick in which nothing changed.
    fn unchanged(machine: StateMachine) -> (turn: Turn)
        ensures
            turn@ == TurnView::Done(
                TransitionView { complete: false, machine: machine@, notification: None },
            ),
    {
        Turn::Done(Transition { outcome: TransitionOutcome::Pending(machine), notification: None })
    }

    /// The end of a tick in which a new round was found.
    fn new_round(phase: Phase<NewRound>) -> (turn: Turn)
        ensures
            turn@ == TurnView::Done(
                TransitionView {
                    complete: true,
                    machine: spec_new_round(phase.state.shared),
                    notification: Some(Notification::NewRound),
                },
            ),
    {
        Turn::Done(
            Transition {
                outcome: TransitionOutcome::Complete(StateMachine::NewRound(phase)),
                notification: Some(Notification::NewRound),
            },
        )
    }

    /// What the next step needs from outside. A delivery comes with the
    /// packets to deliver, sealed for the coordinator; masking and
    /// aggregation come with what is to be masked and summed.
    pub fn demand(&self) -> (demand: Demand<'_>)
        ensures
            demand.spec_kind() == spec_demand(self@),
            spec_demand_matches(self@, demand),
    {
        match self {
            StateMachine::NewRound(_) => Demand::Nothing,
            StateMachine::Awaiting(_) => Demand::Nothing,
            StateMachine::Sum(phase) => phase.demand(),
            StateMachine::Update(phase) => phase.demand(),
            StateMachine::Sum2(phase) => phase.demand(),
        }
    }

    /// The second half of a tick: one step of the current phase, with
    /// what came of its demand. What the step draws at random is left
    /// open; all the rest is fixed. Of the ephemeral keys that are drawn
    /// on the way into the sum phase it holds, whichever they are, that
    /// they are a pair; and a state that is as a run of its phase
    /// leaves it is followed by such a state.
    pub fn proceed(self, supply: Supply) -> (transition: Transition)
        ensures
            exists|fresh: Fresh|
                transition@ == #[trigger] spec_proceed(self@, supply@, fresh) && spec_drawn(
                    self@,
                    fresh,
                ),
            self@ is NewRound && transition@.machine is Sum
                ==> transition@.machine->Sum_0.private.ephm_keys.spec_matches(),
            self@.valid() ==> transition@.machine.valid(),
    {
        let ghost before = self@;
        match self {
            StateMachine::NewRound(phase) => {
                let transition = phase.step(&supply);
                proof {
                    let fresh = choose|fresh: Fresh|
                        transition@ == #[trigger] phase.spec_step(supply@, fresh)
                            && phase.spec_drawn(fresh);
                    assert(transition@ == spec_proceed(before, supply@, fresh));
                    assert(spec_drawn(before, fresh));
                    if before.valid() {
                        lemma_step_keeps_valid(before, supply@, fresh);
                    }
                }
                transition
            },
            StateMachine::Awaiting(phase) => {
                let transition = phase.step(&supply);
                proof {
                    let fresh = choose|fresh: Fresh|
                        transition@ == #[trigger] phase.spec_step(supply@, fresh)
                            && phase.spec_drawn(fresh);
                    assert(transition@ == spec_proceed(before, supply@, fresh));
                    assert(spec_drawn(before, fresh));
                    if before.valid() {
                        lemma_step_keeps_valid(before, supply@, fresh);
                    }
                }
                transition
            },
            StateMachine::Sum(phase) => {
                let transition = phase.step(&supply);
                proof {
                    let fresh = choose|fresh: Fresh|
                        transition@ == #[trigger] phase.spec_step(supply@, fresh)
                            && phase.spec_drawn(fresh);
                    assert(transition@ == spec_proceed(before, supply@, fresh));
                    assert(spec_drawn(before, fresh));
                    if before.valid() {
                        lemma_step_keeps_valid(before, supply@, fresh);
                    }
                }
                transition
            },
            StateMachine::Update(phase) => {
                let transition = phase.step(&supply);
                proof {
                    let fresh = choose|fresh: Fresh|
                        transition@ == #[trigger] phase.spec_step(supply@, fresh)
                            && phase.spec_drawn(fresh);
                    assert(transition@ == spec_proceed(before, supply@, fresh));
                    assert(spec_drawn(before, fresh));
                    if before.valid() {
                        lemma_step_keeps_valid(before, supply@, fresh);
                    }
                }
                transition
            },
            StateMachine::Sum2(phase) => {
                let transition = phase.step(&supply);
                proof {
                    let fresh = choose|fresh: Fresh|
                        transition@ == #[trigger] phase.spec_step(supply@, fresh)
                            && phase.spec_drawn(fresh);
                    assert(transition@ == spec_proceed(before, supply@, fresh));
                    assert(spec_drawn(before, fresh));
                    if before.valid() {
                        lemma_step_keeps_valid(before, supply@, fresh);
                    }
                }
                transition
            },
        }
    }
}

} // verus!
