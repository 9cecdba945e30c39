//! What the protocol carries of the masking scheme.
//!
//! Masking itself is done outside this library. A model and a mask object
//! travel through it as the bytes of their serialized form; a mask seed is
//! 32 bytes, and sealed for a sum participant it is 80.

use vstd::prelude::*;
use crate::bytes::{array32_at, array80_at, slice_to_vec};
use crate::crypto::{EncryptKeyPair, PublicEncryptKey, Ratio, sealed_box_plaintext};

verus! {

/// The parameters of the masking scheme.
#[derive(Clone, Copy, Debug, PartialEq, Eq)]
pub struct MaskConfig {
    pub group_type: u8,
    pub data_type: u8,
    pub bound_type: u8,
    pub model_type: u8,
}

/// The factor by which a model is scaled before it is masked.
pub type Scalar = Ratio;

/// A local model, serialized.
#[derive(Debug, PartialEq, Eq)]
pub struct Model {
    pub bytes: Vec<u8>,
}

impl View for Model {
    type V = Seq<u8>;

    open spec fn view(&self) -> Seq<u8> {
        self.bytes@
    }
}

/// A masked model or a mask, serialized.
#[derive(Debug, PartialEq, Eq)]
pub struct MaskObject {
    pub bytes: Vec<u8>,
}

impl View for MaskObject {
    type V = Seq<u8>;

    open spec fn view(&self) -> Seq<u8> {
        self.bytes@
    }
}

impl Clone for Model {
    /// A model with the same bytes.
    fn clone(&self) -> (copy: Self)
        ensures
            copy@ == self@,
    {
        let bytes = slice_to_vec(self.bytes.as_slice(), 0, self.bytes.len());
        assert(bytes@ =~= self.bytes@);
        Model { bytes }
    }
}

impl Clone for MaskObject {
    /// A mask object with the same bytes.
    fn clone(&self) -> (copy: Self)
        ensures
            copy@ == self@,
    {
        let bytes = slice_to_vec(self.bytes.as_slice(), 0, self.bytes.len());
        assert(bytes@ =~= self.bytes@);
        MaskObject { bytes }
    }
}

/// The seed from which a mask is derived.
#[derive(Clone, Copy, Debug, PartialEq, Eq)]
pub struct MaskSeed {
    pub bytes: [u8; 32],
}

/// A mask seed sealed for one sum participant.
#[derive(Clone, Copy, Debug, PartialEq, Eq)]
pub struct EncryptedMaskSeed {
    pub bytes: [u8; 80],
}

/// The seed inside a sealed seed, for the key pair it was sealed for.
pub open spec fn spec_decrypt(seed: EncryptedMaskSeed, keys: EncryptKeyPair) -> Option<Seq<u8>> {
    sealed_box_plaintext(seed.bytes@, keys.public.bytes@, keys.secret.bytes@)
}

/// The seed inside a sealed seed, as a value.
pub open spec fn spec_open_seed(seed: EncryptedMaskSeed, keys: EncryptKeyPair) -> Option<MaskSeed> {
    match spec_decrypt(seed, keys) {
        Some(plaintext) => Some(choose|opened: MaskSeed| opened.bytes@ == plaintext),
        None => None,
    }
}

impl MaskSeed {
    /// Length in bytes of a mask seed.
    pub const LENGTH: usize = 32;

    /// The bytes of the seed.
    pub fn as_slice(&self) -> (bytes: &[u8])
        ensures
            bytes@ == self.bytes@,
    {
        self.bytes.as_slice()
    }

    /// Seals the seed for the owner of `pk`. Sealing draws fresh randomness, so
    /// two calls give different results; each opens to the seed for the owner.
    pub fn encrypt(&self, pk: &PublicEncryptKey) -> (sealed: EncryptedMaskSeed)
        ensures
            spec_seed_sealed_for(sealed, *self, *pk),
    {
        let ciphertext = pk.encrypt(self.bytes.as_slice());
        let sealed = EncryptedMaskSeed { bytes: array80_at(ciphertext.as_slice(), 0) };
        proof {
            assert(sealed.bytes@ =~= ciphertext@);
            assert forall|keys: EncryptKeyPair| keys.public == *pk && keys.spec_matches() implies
                #[trigger] spec_open_seed(sealed, keys) == Some(*self) by {
                assert(spec_decrypt(sealed, keys) == Some(self.bytes@));
                assert(spec_open_seed(sealed, keys).unwrap().bytes =~= self.bytes);
            }
        }
        sealed
    }
}

/// Whether `sealed` is `seed` sealed for the owner of `pk`: under every
/// key pair whose public key is `pk` and belongs to its secret key, the
/// sealed seed opens, and opens to the seed.
pub open spec fn spec_seed_sealed_for(
    sealed: EncryptedMaskSeed,
    seed: MaskSeed,
    pk: PublicEncryptKey,
) -> bool {
    forall|keys: EncryptKeyPair|
        keys.public == pk && keys.spec_matches() ==> #[trigger] spec_open_seed(sealed, keys)
            == Some(seed)
}

impl EncryptedMaskSeed {
    /// Length in bytes of a sealed mask seed.
    pub const LENGTH: usize = 80;

    /// The bytes of the sealed seed.
    pub fn as_slice(&self) -> (bytes: &[u8])
        ensures
            bytes@ == self.bytes@,
    {
        self.bytes.as_slice()
    }

    /// Opens the sealed seed. It opens exactly when it was sealed for
    /// `keys`.
    pub fn decrypt(&self, keys: &EncryptKeyPair) -> (seed: Option<MaskSeed>)
        ensures
            match seed {
                Some(s) => spec_decrypt(*self, *keys) == Some(s.bytes@),
                None => spec_decrypt(*self, *keys) is None,
            },
            seed == spec_open_seed(*self, *keys),
    {
        match keys.decrypt(self.bytes.as_slice()) {
            Some(plaintext) => {
                let seed = MaskSeed { bytes: array32_at(plaintext.as_slice(), 0) };
                assert(plaintext@.subrange(0, 32) =~= plaintext@);
                assert(spec_open_seed(*self, *keys).unwrap().bytes =~= seed.bytes);
                Some(seed)
            },
            None => None,
        }
    }
}

} // verus!
