//! What passes between the state machine and the world around it.
//!
//! The state machine does no I/O. Before a step it says what it needs, a
//! `Demand`; whoever drives it meets the demand and hands the result in
//! as a `Supply`; after the step it says what to tell the host, a
//! `Notification`.

use vstd::prelude::*;
use crate::crypto::{PublicEncryptKey, PublicSigningKey};
use crate::dict::{SumDict, UpdateSeedDict};
use crate::mask::{EncryptedMaskSeed, MaskConfig, MaskObject, MaskSeed, Model, Scalar};

verus! {

/// A request to the coordinator or to the model store failed.
#[derive(Clone, Copy, Debug, PartialEq, Eq)]
pub struct IoError;

/// A message could not be delivered.
#[derive(Clone, Copy, Debug, PartialEq, Eq)]
pub struct SendMessageError;

/// What the host is told after a step.
#[derive(Clone, Copy, Debug, PartialEq, Eq)]
pub enum Notification {
    /// A new round has started.
    NewRound,
    /// The participant takes part in the sum task.
    Sum,
    /// The participant takes part in the update task.
    Update,
    /// The participant has nothing more to do in this round.
    Idle,
}

/// The kinds of demand.
#[derive(Clone, Copy, Debug, PartialEq, Eq)]
pub enum DemandKind {
    Nothing,
    Sums,
    Model,
    MaskLength,
    Seeds,
    Masking,
    Aggregation,
    Delivery,
}

/// What the next step needs from outside.
#[derive(Debug)]
pub enum Demand<'a> {
    /// Nothing: the step is computed from what the state holds.
    Nothing,
    /// The sum dictionary, from the coordinator.
    Sums,
    /// The local model, from the model store.
    Model,
    /// The length of the mask, from the coordinator.
    MaskLength,
    /// The seeds sealed for this sum participant, from the coordinator.
    Seeds(PublicSigningKey),
    /// The model, masked under a fresh seed.
    Masking { config: MaskConfig, scalar: Scalar, model: &'a Model },
    /// The sum of the masks derived from the seeds, each of the given
    /// length.
    Aggregation { config: MaskConfig, mask_length: u64, seeds: &'a Vec<MaskSeed> },
    /// The delivery of the packets, in their order, up to the first that
    /// fails.
    Delivery(Vec<Vec<u8>>),
}

/// What came of a demand.
#[derive(Debug)]
pub enum Supply {
    /// Nothing was asked, or nothing was done.
    Nothing,
    /// What the coordinator said of the sum dictionary.
    Sums(Result<Option<SumDict>, IoError>),
    /// What the model store said of the local model.
    Model(Result<Option<Model>, IoError>),
    /// What the coordinator said of the length of the mask.
    MaskLength(Result<Option<u64>, IoError>),
    /// What the coordinator said of the sealed seeds.
    Seeds(Result<Option<UpdateSeedDict>, IoError>),
    /// The seed that was drawn and the model masked under it.
    Masked(MaskSeed, MaskObject),
    /// The sum of the masks, or `None` where a mask could not be added.
    Aggregated(Option<MaskObject>),
    /// Whether all the packets were delivered.
    Delivered(Result<(), SendMessageError>),
}

/// What a supply brings, with an answer that failed and an answer that is
/// not there yet taken as one: nothing was brought.
pub enum SupplyView {
    Nothing,
    Sums(Option<Seq<(PublicSigningKey, PublicEncryptKey)>>),
    Model(Option<Seq<u8>>),
    MaskLength(Option<u64>),
    Seeds(Option<Seq<(PublicSigningKey, EncryptedMaskSeed)>>),
    Masked(MaskSeed, Seq<u8>),
    Aggregated(Option<Seq<u8>>),
    Delivered(bool),
}

impl View for Supply {
    type V = SupplyView;

    open spec fn view(&self) -> SupplyView {
        match self {
            Supply::Nothing => SupplyView::Nothing,
            Supply::Sums(Ok(Some(dict))) => SupplyView::Sums(Some(dict@)),
            Supply::Sums(_) => SupplyView::Sums(None),
            Supply::Model(Ok(Some(model))) => SupplyView::Model(Some(model@)),
            Supply::Model(_) => SupplyView::Model(None),
            Supply::MaskLength(Ok(Some(length))) => SupplyView::MaskLength(Some(*length)),
            Supply::MaskLength(_) => SupplyView::MaskLength(None),
            Supply::Seeds(Ok(Some(dict))) => SupplyView::Seeds(Some(dict@)),
            Supply::Seeds(_) => SupplyView::Seeds(None),
            Supply::Masked(seed, mask) => SupplyView::Masked(*seed, mask@),
            Supply::Aggregated(Some(mask)) => SupplyView::Aggregated(Some(mask@)),
            Supply::Aggregated(None) => SupplyView::Aggregated(None),
            Supply::Delivered(Ok(())) => SupplyView::Delivered(true),
            Supply::Delivered(Err(_)) => SupplyView::Delivered(false),
        }
    }
}

impl<'a> Demand<'a> {
    /// The kind of the demand.
    pub open spec fn spec_kind(&self) -> DemandKind {
        match self {
            Demand::Nothing => DemandKind::Nothing,
            Demand::Sums => DemandKind::Sums,
            Demand::Model => DemandKind::Model,
            Demand::MaskLength => DemandKind::MaskLength,
            Demand::Seeds(_) => DemandKind::Seeds,
            Demand::Masking { .. } => DemandKind::Masking,
            Demand::Aggregation { .. } => DemandKind::Aggregation,
            Demand::Delivery(_) => DemandKind::Delivery,
        }
    }

    /// The kind of the demand.
    pub fn kind(&self) -> (kind: DemandKind)
        ensures
            kind == self.spec_kind(),
    {
        match self {
            Demand::Nothing => DemandKind::Nothing,
            Demand::Sums => DemandKind::Sums,
            Demand::Model => DemandKind::Model,
            Demand::MaskLength => DemandKind::MaskLength,
            Demand::Seeds(_) => DemandKind::Seeds,
            Demand::Masking { .. } => DemandKind::Masking,
            Demand::Aggregation { .. } => DemandKind::Aggregation,
            Demand::Delivery(_) => DemandKind::Delivery,
        }
    }
}

} // verus!
