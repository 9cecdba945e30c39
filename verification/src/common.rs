//! What the coordinator publishes for a round.

use vstd::prelude::*;
use crate::bytes::same_bytes;
use crate::crypto::{PublicEncryptKey, Ratio};

verus! {

/// The seed of a round: what binds eligibility to the round.
#[derive(Clone, Copy, Debug, PartialEq, Eq)]
pub struct RoundSeed {
    pub bytes: [u8; 32],
}

/// The parameters of a round.
///
/// Two values are the same round only if every field is the same, byte
/// for byte; a participant that sees any difference starts over.
#[derive(Clone, Copy, Debug, PartialEq, Eq)]
pub struct RoundParameters {
    /// The key that messages to the coordinator are sealed for.
    pub pk: PublicEncryptKey,
    /// The share of participants elected to sum.
    pub sum: Ratio,
    /// The share of the remaining participants elected to update.
    pub update: Ratio,
    /// The seed of the round.
    pub seed: RoundSeed,
}

/// The parameters a participant holds before it has seen a round: the
/// key and the seed are all zero, and no one is elected.
pub open spec fn spec_unset(params: RoundParameters) -> bool {
    &&& params.pk.bytes@ == Seq::new(32, |i: int| 0u8)
    &&& params.seed.bytes@ == Seq::new(32, |i: int| 0u8)
    &&& params.sum == (Ratio { numer: 0, denom: 1 })
    &&& params.update == (Ratio { numer: 0, denom: 1 })
}

impl RoundSeed {
    /// Length in bytes of a round seed.
    pub const LENGTH: usize = 32;

    /// The bytes of the seed.
    pub fn as_slice(&self) -> (bytes: &[u8])
        ensures
            bytes@ == self.bytes@,
    {
        self.bytes.as_slice()
    }
}

impl RoundParameters {
    /// Whether `other` is the same round.
    pub fn same(&self, other: &RoundParameters) -> (same: bool)
        ensures
            same == (*self == *other),
    {
        let same = same_bytes(self.pk.bytes.as_slice(), other.pk.bytes.as_slice()) && same_bytes(
            self.seed.bytes.as_slice(),
            other.seed.bytes.as_slice(),
        ) && self.sum.numer == other.sum.numer && self.sum.denom == other.sum.denom
            && self.update.numer == other.update.numer && self.update.denom == other.update.denom;
        proof {
            if same {
                assert(self.pk.bytes =~= other.pk.bytes);
                assert(self.seed.bytes =~= other.seed.bytes);
            }
        }
        same
    }
}

impl Default for RoundParameters {
    /// The parameters a participant holds before it has seen a round: no
    /// one is elected.
    fn default() -> (params: Self)
        ensures
            spec_unset(params),
    {
        let params = RoundParameters {
            pk: PublicEncryptKey { bytes: [0u8; 32] },
            sum: Ratio { numer: 0, denom: 1 },
            update: Ratio { numer: 0, denom: 1 },
            seed: RoundSeed { bytes: [0u8; 32] },
        };
        assert(params.pk.bytes@ =~= Seq::new(32, |i: int| 0u8));
        assert(params.seed.bytes@ =~= Seq::new(32, |i: int| 0u8));
        params
    }
}

} // verus!
