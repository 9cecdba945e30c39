//! What a participant is set up with.

use vstd::prelude::*;
use crate::crypto::{Ratio, SigningKeyPair};
use crate::mask::{MaskConfig, Scalar};

verus! {

/// The message size a participant keeps to when nothing else is asked.
pub const DEFAULT_MESSAGE_SIZE: usize = 4096;

/// What the header and the sealing take of a message: 104 and 48 bytes.
pub const MESSAGE_OVERHEAD: usize = 152;

/// The shortest message size that can be asked for: the header, the
/// sealing, the leading bytes of a chunk and one byte of data.
pub const MINIMUM_MESSAGE_SIZE: usize = 161;

/// The longest message a participant sends, sealed: a number of bytes, or
/// no limit. A limit is never under the shortest message size.
#[derive(Clone, Copy, Debug, PartialEq, Eq)]
pub struct MaxMessageSize {
    limit: Option<usize>,
}

impl MaxMessageSize {
    #[verifier::type_invariant]
    closed spec fn limit_is_long_enough(self) -> bool {
        match self.limit {
            Some(limit) => limit >= MINIMUM_MESSAGE_SIZE,
            None => true,
        }
    }

    /// The limit, if there is one.
    pub closed spec fn spec_limit(self) -> Option<usize> {
        self.limit
    }

    /// What the limit leaves for the payload of one packet.
    pub open spec fn spec_max_payload_size(self) -> Option<usize> {
        match self.spec_limit() {
            Some(limit) => Some((limit - MESSAGE_OVERHEAD) as usize),
            None => None,
        }
    }

    /// No limit.
    pub fn unlimited() -> (size: Self)
        ensures
            size.spec_limit() is None,
    {
        MaxMessageSize { limit: None }
    }

    /// A limit of `limit` bytes; `None` where that is under the shortest
    /// message size.
    pub fn capped(limit: usize) -> (size: Option<Self>)
        ensures
            size is Some <==> limit >= MINIMUM_MESSAGE_SIZE,
            size is Some ==> size.unwrap().spec_limit() == Some(limit),
    {
        if limit >= MINIMUM_MESSAGE_SIZE {
            Some(MaxMessageSize { limit: Some(limit) })
        } else {
            None
        }
    }

    /// The limit, if there is one. It is never under the shortest
    /// message size.
    pub fn limit(&self) -> (limit: Option<usize>)
        ensures
            limit == self.spec_limit(),
            limit is Some ==> limit.unwrap() >= MINIMUM_MESSAGE_SIZE,
    {
        proof {
            use_type_invariant(self);
        }
        self.limit
    }

    /// The most bytes the payload of one packet may have: what the limit
    /// leaves once the header and the sealing have had their share. That
    /// is more than the leading bytes of a chunk take.
    pub fn max_payload_size(&self) -> (size: Option<usize>)
        ensures
            size == self.spec_max_payload_size(),
            size is Some ==> size.unwrap() >= MINIMUM_MESSAGE_SIZE - MESSAGE_OVERHEAD,
    {
        proof {
            use_type_invariant(self);
        }
        match self.limit {
            Some(limit) => Some(limit - MESSAGE_OVERHEAD),
            None => None,
        }
    }
}

impl Default for MaxMessageSize {
    fn default() -> (size: Self)
        ensures
            size.spec_limit() == Some(DEFAULT_MESSAGE_SIZE),
    {
        MaxMessageSize { limit: Some(DEFAULT_MESSAGE_SIZE) }
    }
}

/// The settings a participant starts from.
#[derive(Clone, Copy, Debug, PartialEq, Eq)]
pub struct AgentSettings {
    pub keys: SigningKeyPair,
    pub mask_config: MaskConfig,
    pub scalar: Scalar,
    pub max_message_size: MaxMessageSize,
}

impl AgentSettings {
    /// Settings with the scalar 1 and the default message size.
    pub fn new(keys: SigningKeyPair, mask_config: MaskConfig) -> (settings: Self)
        ensures
            settings.keys == keys,
            settings.mask_config == mask_config,
            settings.scalar == (Ratio { numer: 1, denom: 1 }),
            settings.max_message_size.spec_limit() == Some(DEFAULT_MESSAGE_SIZE),
    {
        AgentSettings {
            keys,
            mask_config,
            scalar: Ratio { numer: 1, denom: 1 },
            max_message_size: MaxMessageSize::default(),
        }
    }
}

} // verus!
