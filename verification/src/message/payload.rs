//! The four payloads and their wire forms.
//!
//! Fixed-width fields come first. A field of variable length is preceded
//! by four bytes that give its length, those four bytes included, most
//! significant first.
//!
//! - sum: signature (64), ephemeral public key (32);
//! - update: sum signature (64), update signature (64), masked model
//!   (length-prefixed), local seed dictionary (length-prefixed; each entry
//!   is a public signing key (32) and a sealed seed (80));
//! - sum2: sum signature (64), mask (length-prefixed);
//! - chunk: index (2), message id (2), flags (1; bit 0 marks the last
//!   chunk), reserved (3, zero), data.

use vstd::prelude::*;
use crate::bytes::{
    append, array32_at, array64_at, array80_at, lemma_u16_be_bytes_round_trip,
    lemma_u32_be_bytes_round_trip, lemma_u32_be_round_trip, slice_to_vec, spec_u16_to_be,
    spec_u32_from_be, spec_u32_to_be, u16_from_be, u16_to_be, u32_from_be, u32_to_be,
};
use crate::crypto::{PublicEncryptKey, PublicSigningKey, Signature};
use crate::dict::{distinct_keys, lacks_key, LocalSeedDict};
use crate::mask::{EncryptedMaskSeed, MaskObject};
use crate::message::buffer::DecodeError;

verus! {

/// Length in bytes of a sum payload.
pub const SUM_LENGTH: usize = 96;

/// Length in bytes of one entry of a seed dictionary.
pub const SEED_ENTRY_LENGTH: usize = 112;

/// Length in bytes of what precedes the data of a chunk.
pub const CHUNK_OVERHEAD: usize = 8;

/// The longest payload whose message still has a length that four bytes
/// can give.
pub const MAX_PAYLOAD_LENGTH: usize = 0xffff_ffff - 104;

/// A field of variable length on the wire: its length, then its bytes.
pub open spec fn spec_prefixed(field: Seq<u8>) -> Seq<u8>
    recommends
        field.len() + 4 <= u32::MAX,
{
    spec_u32_to_be((field.len() + 4) as u32) + field
}

/// Where the length-prefixed field that starts at `offset` ends, if the
/// bytes hold one there.
pub open spec fn spec_prefixed_end(bytes: Seq<u8>, offset: int) -> Option<int> {
    if 0 <= offset && offset + 4 <= bytes.len() {
        let length = spec_u32_from_be(bytes.subrange(offset, offset + 4));
        if 4 <= length && offset + length <= bytes.len() {
            Some(offset + length)
        } else {
            None
        }
    } else {
        None
    }
}

/// The entries of a seed dictionary, one after the other.
pub open spec fn spec_entries_bytes(entries: Seq<(PublicSigningKey, EncryptedMaskSeed)>) -> Seq<u8>
    decreases entries.len(),
{
    if entries.len() == 0 {
        Seq::<u8>::empty()
    } else {
        spec_entries_bytes(entries.drop_last()) + entries.last().0.bytes@ + entries.last().1.bytes@
    }
}

/// A seed dictionary on the wire.
pub open spec fn spec_dict_bytes(entries: Seq<(PublicSigningKey, EncryptedMaskSeed)>) -> Seq<u8> {
    spec_prefixed(spec_entries_bytes(entries))
}

/// The entries take 112 bytes each.
pub proof fn lemma_entries_bytes_len(entries: Seq<(PublicSigningKey, EncryptedMaskSeed)>)
    ensures
        spec_entries_bytes(entries).len() == SEED_ENTRY_LENGTH * entries.len(),
    decreases entries.len(),
{
    if entries.len() > 0 {
        lemma_entries_bytes_len(entries.drop_last());
    }
}

/// The key of the `index`-th entry of the entries that start at `start`.
pub open spec fn spec_entry_key(bytes: Seq<u8>, start: int, index: int) -> Seq<u8> {
    bytes.subrange(start + SEED_ENTRY_LENGTH * index, start + SEED_ENTRY_LENGTH * index + 32)
}

/// Whether `bytes[start ..]` is a whole number of entries with no key
/// twice.
pub open spec fn spec_entries_valid(bytes: Seq<u8>, start: int) -> bool {
    &&& 0 <= start <= bytes.len()
    &&& (bytes.len() - start) % (SEED_ENTRY_LENGTH as int) == 0
    &&& forall|i: int, j: int|
        0 <= i < j < (bytes.len() - start) / (SEED_ENTRY_LENGTH as int) ==> spec_entry_key(
            bytes,
            start,
            i,
        ) != spec_entry_key(bytes, start, j)
}

/// A sum payload on the wire.
pub open spec fn spec_sum_bytes(sum_signature: Signature, ephm_pk: PublicEncryptKey) -> Seq<u8> {
    sum_signature.bytes@ + ephm_pk.bytes@
}

/// An update payload on the wire.
pub open spec fn spec_update_bytes(
    sum_signature: Signature,
    update_signature: Signature,
    masked_model: Seq<u8>,
    local_seed_dict: Seq<(PublicSigningKey, EncryptedMaskSeed)>,
) -> Seq<u8> {
    sum_signature.bytes@ + update_signature.bytes@ + spec_prefixed(masked_model) + spec_dict_bytes(
        local_seed_dict,
    )
}

/// Whether an update payload with a model and a dictionary of these
/// lengths is short enough for a message to carry it.
pub open spec fn spec_update_fits(masked_model: nat, local_seed_dict: nat) -> bool {
    136 + masked_model + SEED_ENTRY_LENGTH * local_seed_dict <= MAX_PAYLOAD_LENGTH
}

/// A sum2 payload on the wire.
pub open spec fn spec_sum2_bytes(sum_signature: Signature, model_mask: Seq<u8>) -> Seq<u8> {
    sum_signature.bytes@ + spec_prefixed(model_mask)
}

/// Whether a sum2 payload with a mask of this length is short enough for
/// a message to carry it.
pub open spec fn spec_sum2_fits(model_mask: nat) -> bool {
    68 + model_mask <= MAX_PAYLOAD_LENGTH
}

/// What a sum participant announces: that it is eligible, and the key to
/// seal seeds for.
#[derive(Clone, Copy, Debug, PartialEq, Eq)]
pub struct Sum {
    pub sum_signature: Signature,
    pub ephm_pk: PublicEncryptKey,
}

/// What an update participant sends: its masked model and the mask seed,
/// sealed for each sum participant.
#[derive(Clone, Debug, PartialEq, Eq)]
pub struct Update {
    pub sum_signature: Signature,
    pub update_signature: Signature,
    pub masked_model: MaskObject,
    pub local_seed_dict: LocalSeedDict,
}

/// What a sum participant sends at the end: the sum of the masks.
#[derive(Clone, Debug, PartialEq, Eq)]
pub struct Sum2 {
    pub sum_signature: Signature,
    pub model_mask: MaskObject,
}

/// One part of a message that was too long for one packet.
#[derive(Clone, Debug, PartialEq, Eq)]
pub struct Chunk {
    /// Index of the chunk in its message, from 0.
    pub id: u16,
    /// The id that the chunks of one message share.
    pub message_id: u16,
    /// Whether this is the last chunk of its message.
    pub last: bool,
    /// The part of the payload that this chunk carries.
    pub data: Vec<u8>,
}

/// The payload of a message.
#[derive(Clone, Debug, PartialEq, Eq)]
pub enum Payload {
    Sum(Sum),
    Update(Update),
    Sum2(Sum2),
    Chunk(Chunk),
}

/// Reads the length-prefixed field at `offset` and says where it ends.
pub fn read_prefixed(bytes: &[u8], offset: usize) -> (end: Option<usize>)
    requires
        offset <= bytes@.len(),
    ensures
        match end {
            Some(e) => spec_prefixed_end(bytes@, offset as int) == Some(e as int) && offset + 4
                <= e <= bytes@.len() && bytes@.subrange(offset as int, e as int) == spec_prefixed(
                bytes@.subrange(offset + 4, e as int),
            ),
            None => spec_prefixed_end(bytes@, offset as int) is None,
        },
{
    let total = bytes.len();
    if total - offset < 4 {
        return None;
    }
    let length = u32_from_be(bytes, offset) as usize;
    if length < 4 || length > total - offset {
        return None;
    }
    let end = offset + length;
    proof {
        let prefix = bytes@.subrange(offset as int, offset + 4);
        lemma_u32_be_bytes_round_trip(prefix);
        let field = bytes@.subrange(offset + 4, end as int);
        assert(field.len() + 4 == length);
        assert(bytes@.subrange(offset as int, end as int) =~= prefix + field);
    }
    Some(end)
}

/// Appends `field` with its length in front.
pub fn append_prefixed(out: &mut Vec<u8>, field: &[u8])
    requires
        field@.len() + 4 <= u32::MAX,
    ensures
        final(out)@ == old(out)@ + spec_prefixed(field@),
{
    let ghost before = out@;
    let length: u32 = (field.len() + 4) as u32;
    let prefix = u32_to_be(length);
    append(out, prefix.as_slice());
    append(out, field);
    assert(out@ =~= before + spec_prefixed(field@));
}

impl Sum {
    /// The payload on the wire.
    pub open spec fn spec_bytes(&self) -> Seq<u8> {
        spec_sum_bytes(self.sum_signature, self.ephm_pk)
    }

    /// Number of bytes of the payload on the wire.
    pub fn buffer_length(&self) -> (length: usize)
        ensures
            length == self.spec_bytes().len(),
            length == SUM_LENGTH,
    {
        SUM_LENGTH
    }

    /// The payload on the wire.
    pub fn to_vec(&self) -> (bytes: Vec<u8>)
        ensures
            bytes@ == self.spec_bytes(),
    {
        let mut bytes: Vec<u8> = Vec::new();
        append(&mut bytes, self.sum_signature.bytes.as_slice());
        append(&mut bytes, self.ephm_pk.bytes.as_slice());
        assert(bytes@ =~= self.spec_bytes());
        bytes
    }

    /// Reads a sum payload. The bytes are one exactly when there are 96 of
    /// them, and the payload read is the one whose wire form they are.
    pub fn from_bytes(bytes: &[u8]) -> (payload: Result<Self, DecodeError>)
        ensures
            payload is Ok <==> bytes@.len() == SUM_LENGTH,
            payload is Ok ==> payload.unwrap().spec_bytes() == bytes@,
            payload is Err ==> payload == Err::<Self, DecodeError>(DecodeError::InvalidPayload),
    {
        if bytes.len() != SUM_LENGTH {
            return Err(DecodeError::InvalidPayload);
        }
        let payload = Sum {
            sum_signature: Signature { bytes: array64_at(bytes, 0) },
            ephm_pk: PublicEncryptKey { bytes: array32_at(bytes, 64) },
        };
        assert(payload.spec_bytes() =~= bytes@);
        Ok(payload)
    }
}

/// Writes the entries of a seed dictionary, with their length in front.
pub fn append_dict(out: &mut Vec<u8>, dict: &LocalSeedDict)
    requires
        SEED_ENTRY_LENGTH * dict@.len() + 4 <= u32::MAX,
    ensures
        final(out)@ == old(out)@ + spec_dict_bytes(dict@),
{
    let ghost before = out@;
    let n = dict.len();
    let length: u32 = (SEED_ENTRY_LENGTH * n + 4) as u32;
    let prefix = u32_to_be(length);
    append(out, prefix.as_slice());
    let mut i: usize = 0;
    while i < n
        invariant
            i <= n,
            n == dict@.len(),
            out@ == before + spec_u32_to_be(length) + spec_entries_bytes(dict@.subrange(0, i as int)),
        decreases n - i,
    {
        let entry = dict.entry(i);
        let ghost so_far = out@;
        append(out, entry.0.bytes.as_slice());
        append(out, entry.1.bytes.as_slice());
        proof {
            let next = dict@.subrange(0, i + 1);
            assert(next.drop_last() =~= dict@.subrange(0, i as int));
            assert(next.last() == dict@[i as int]);
            assert(out@ =~= before + spec_u32_to_be(length) + spec_entries_bytes(next));
        }
        i += 1;
    }
    proof {
        assert(dict@.subrange(0, n as int) =~= dict@);
        lemma_entries_bytes_len(dict@);
        assert(out@ =~= before + spec_dict_bytes(dict@));
    }
}

/// Reads the entries that fill `bytes[start ..]`. They are a dictionary
/// exactly when they are a whole number of entries and no key comes twice.
pub fn read_entries(bytes: &[u8], start: usize) -> (dict: Option<LocalSeedDict>)
    requires
        start <= bytes@.len(),
    ensures
        dict is Some <==> spec_entries_valid(bytes@, start as int),
        dict is Some ==> spec_entries_bytes(dict.unwrap()@) == bytes@.subrange(
            start as int,
            bytes@.len() as int,
        ),
{
    let total = bytes.len();
    if (total - start) % SEED_ENTRY_LENGTH != 0 {
        return None;
    }
    let n = (total - start) / SEED_ENTRY_LENGTH;
    let mut dict = LocalSeedDict::new();
    let mut i: usize = 0;
    while i < n
        invariant
            i <= n,
            start <= total,
            total == bytes@.len(),
            n == (total - start) / (SEED_ENTRY_LENGTH as int),
            (total - start) % (SEED_ENTRY_LENGTH as int) == 0,
            dict@.len() == i,
            forall|k: int|
                0 <= k < i ==> (#[trigger] dict@[k]).0.bytes@ == spec_entry_key(
                    bytes@,
                    start as int,
                    k,
                ),
            spec_entries_bytes(dict@) == bytes@.subrange(
                start as int,
                start + SEED_ENTRY_LENGTH * i,
            ),
        decreases n - i,
    {
        assert(start + SEED_ENTRY_LENGTH * (i + 1) <= total) by (nonlinear_arith)
            requires
                i < n,
                n == (total - start) / (SEED_ENTRY_LENGTH as int),
                (total - start) % (SEED_ENTRY_LENGTH as int) == 0,
                start <= total,
        ;
        let at = start + SEED_ENTRY_LENGTH * i;
        let key = PublicSigningKey { bytes: array32_at(bytes, at) };
        let seed = EncryptedMaskSeed { bytes: array80_at(bytes, at + 32) };
        let ghost before = dict@;
        let previous = dict.insert(key, seed);
        if previous.is_some() {
            proof {
                if lacks_key(before, key) {
                    assert(false);
                }
                let k = choose|k: int| 0 <= k < before.len() && (#[trigger] before[k]).0 == key;
                assert(spec_entry_key(bytes@, start as int, k) == spec_entry_key(
                    bytes@,
                    start as int,
                    i as int,
                ));
            }
            return None;
        }
        proof {
            if !lacks_key(before, key) {
                let k = choose|k: int| 0 <= k < before.len() && (#[trigger] before[k]).0 == key;
                assert(previous == Some(before[k].1));
            }
            assert(dict@ == before.push((key, seed)));
            assert(dict@.drop_last() =~= before);
            assert(spec_entries_bytes(dict@) =~= bytes@.subrange(
                start as int,
                start + SEED_ENTRY_LENGTH * (i + 1),
            ));
        }
        i += 1;
    }
    proof {
        assert(start + SEED_ENTRY_LENGTH * n == total) by (nonlinear_arith)
            requires
                n == (total - start) / (SEED_ENTRY_LENGTH as int),
                (total - start) % (SEED_ENTRY_LENGTH as int) == 0,
                start <= total,
        ;
    }
    let count = dict.len();
    proof {
        assert(count == n);
        assert forall|a: int, b: int| 0 <= a < b < n implies spec_entry_key(
            bytes@,
            start as int,
            a,
        ) != spec_entry_key(bytes@, start as int, b) by {
            assert(dict@[a].0 != dict@[b].0);
            if spec_entry_key(bytes@, start as int, a) == spec_entry_key(bytes@, start as int, b) {
                assert(dict@[a].0.bytes =~= dict@[b].0.bytes);
            }
        }
    }
    Some(dict)
}

impl Update {
    /// The payload on the wire.
    pub open spec fn spec_bytes(&self) -> Seq<u8> {
        spec_update_bytes(
            self.sum_signature,
            self.update_signature,
            self.masked_model@,
            self.local_seed_dict@,
        )
    }

    /// Whether the payload is short enough for a message to carry it.
    pub open spec fn spec_fits(&self) -> bool {
        spec_update_fits(self.masked_model@.len(), self.local_seed_dict@.len())
    }

    /// Whether `bytes` are the wire form of an update payload.
    pub open spec fn spec_valid(bytes: Seq<u8>) -> bool {
        &&& bytes.len() >= 128
        &&& spec_prefixed_end(bytes, 128) is Some
        &&& spec_prefixed_end(bytes, spec_prefixed_end(bytes, 128).unwrap()) == Some(
            bytes.len() as int,
        )
        &&& spec_entries_valid(bytes, spec_prefixed_end(bytes, 128).unwrap() + 4)
    }

    /// Whether the payload is short enough for a message to carry it.
    pub fn fits(&self) -> (fits: bool)
        ensures
            fits == self.spec_fits(),
    {
        let model = self.masked_model.bytes.len();
        let entries = self.local_seed_dict.len();
        if model > MAX_PAYLOAD_LENGTH - 136 {
            return false;
        }
        let rest = MAX_PAYLOAD_LENGTH - 136 - model;
        entries <= rest / SEED_ENTRY_LENGTH
    }

    /// Number of bytes of the payload on the wire.
    pub fn buffer_length(&self) -> (length: usize)
        requires
            self.spec_fits(),
        ensures
            length == self.spec_bytes().len(),
    {
        proof {
            lemma_entries_bytes_len(self.local_seed_dict@);
        }
        136 + self.masked_model.bytes.len() + SEED_ENTRY_LENGTH * self.local_seed_dict.len()
    }

    /// The payload on the wire.
    pub fn to_vec(&self) -> (bytes: Vec<u8>)
        requires
            self.spec_fits(),
        ensures
            bytes@ == self.spec_bytes(),
    {
        let mut bytes: Vec<u8> = Vec::new();
        append(&mut bytes, self.sum_signature.bytes.as_slice());
        append(&mut bytes, self.update_signature.bytes.as_slice());
        append_prefixed(&mut bytes, self.masked_model.bytes.as_slice());
        append_dict(&mut bytes, &self.local_seed_dict);
        assert(bytes@ =~= self.spec_bytes());
        bytes
    }

    /// Reads an update payload. The payload read is the one whose wire
    /// form the bytes are.
    pub fn from_bytes(bytes: &[u8]) -> (payload: Result<Self, DecodeError>)
        ensures
            payload is Ok <==> Self::spec_valid(bytes@),
            payload is Ok ==> payload.unwrap().spec_bytes() == bytes@,
            payload is Err ==> payload == Err::<Self, DecodeError>(DecodeError::InvalidPayload),
    {
        let total = bytes.len();
        if total < 128 {
            return Err(DecodeError::InvalidPayload);
        }
        let model_end = match read_prefixed(bytes, 128) {
            Some(end) => end,
            None => {
                return Err(DecodeError::InvalidPayload);
            },
        };
        let dict_end = match read_prefixed(bytes, model_end) {
            Some(end) => end,
            None => {
                return Err(DecodeError::InvalidPayload);
            },
        };
        if dict_end != total {
            return Err(DecodeError::InvalidPayload);
        }
        let local_seed_dict = match read_entries(bytes, model_end + 4) {
            Some(dict) => dict,
            None => {
                return Err(DecodeError::InvalidPayload);
            },
        };
        let payload = Update {
            sum_signature: Signature { bytes: array64_at(bytes, 0) },
            update_signature: Signature { bytes: array64_at(bytes, 64) },
            masked_model: MaskObject { bytes: slice_to_vec(bytes, 132, model_end) },
            local_seed_dict,
        };
        proof {
            assert(payload.spec_bytes() =~= bytes@.subrange(0, 64) + bytes@.subrange(64, 128)
                + bytes@.subrange(128, model_end as int) + bytes@.subrange(
                model_end as int,
                total as int,
            ));
            assert(payload.spec_bytes() =~= bytes@);
        }
        Ok(payload)
    }
}

impl Sum2 {
    /// The payload on the wire.
    pub open spec fn spec_bytes(&self) -> Seq<u8> {
        spec_sum2_bytes(self.sum_signature, self.model_mask@)
    }

    /// Whether the payload is short enough for a message to carry it.
    pub open spec fn spec_fits(&self) -> bool {
        spec_sum2_fits(self.model_mask@.len())
    }

    /// Whether `bytes` are the wire form of a sum2 payload.
    pub open spec fn spec_valid(bytes: Seq<u8>) -> bool {
        &&& bytes.len() >= 64
        &&& spec_prefixed_end(bytes, 64) == Some(bytes.len() as int)
    }

    /// Whether the payload is short enough for a message to carry it.
    pub fn fits(&self) -> (fits: bool)
        ensures
            fits == self.spec_fits(),
    {
        self.model_mask.bytes.len() <= MAX_PAYLOAD_LENGTH - 68
    }

    /// Number of bytes of the payload on the wire.
    pub fn buffer_length(&self) -> (length: usize)
        requires
            self.spec_fits(),
        ensures
            length == self.spec_bytes().len(),
    {
        68 + self.model_mask.bytes.len()
    }

    /// The payload on the wire.
    pub fn to_vec(&self) -> (bytes: Vec<u8>)
        requires
            self.spec_fits(),
        ensures
            bytes@ == self.spec_bytes(),
    {
        let mut bytes: Vec<u8> = Vec::new();
        append(&mut bytes, self.sum_signature.bytes.as_slice());
        append_prefixed(&mut bytes, self.model_mask.bytes.as_slice());
        assert(bytes@ =~= self.spec_bytes());
        bytes
    }

    /// Reads a sum2 payload. The payload read is the one whose wire form
    /// the bytes are.
    pub fn from_bytes(bytes: &[u8]) -> (payload: Result<Self, DecodeError>)
        ensures
            payload is Ok <==> Self::spec_valid(bytes@),
            payload is Ok ==> payload.unwrap().spec_bytes() == bytes@,
            payload is Err ==> payload == Err::<Self, DecodeError>(DecodeError::InvalidPayload),
    {
        let total = bytes.len();
        if total < 64 {
            return Err(DecodeError::InvalidPayload);
        }
        let mask_end = match read_prefixed(bytes, 64) {
            Some(end) => end,
            None => {
                return Err(DecodeError::InvalidPayload);
            },
        };
        if mask_end != total {
            return Err(DecodeError::InvalidPayload);
        }
        let payload = Sum2 {
            sum_signature: Signature { bytes: array64_at(bytes, 0) },
            model_mask: MaskObject { bytes: slice_to_vec(bytes, 68, total) },
        };
        proof {
            assert(payload.spec_bytes() =~= bytes@.subrange(0, 64) + bytes@.subrange(
                64,
                total as int,
            ));
            assert(payload.spec_bytes() =~= bytes@);
        }
        Ok(payload)
    }
}

/// The flags byte of a chunk.
pub open spec fn spec_flags(last: bool) -> u8 {
    if last {
        1u8
    } else {
        0u8
    }
}

/// A chunk on the wire.
pub open spec fn spec_chunk_bytes(id: u16, message_id: u16, last: bool, data: Seq<u8>) -> Seq<u8> {
    spec_u16_to_be(id) + spec_u16_to_be(message_id) + seq![spec_flags(last), 0u8, 0u8, 0u8] + data
}

impl Chunk {
    /// The payload on the wire.
    pub open spec fn spec_bytes(&self) -> Seq<u8> {
        spec_chunk_bytes(self.id, self.message_id, self.last, self.data@)
    }

    /// Whether the payload is short enough for a message to carry it.
    pub open spec fn spec_fits(&self) -> bool {
        CHUNK_OVERHEAD + self.data@.len() <= MAX_PAYLOAD_LENGTH
    }

    /// Whether `bytes` are the wire form of a chunk.
    pub open spec fn spec_valid(bytes: Seq<u8>) -> bool {
        &&& bytes.len() >= CHUNK_OVERHEAD
        &&& bytes[4] <= 1
        &&& bytes[5] == 0
        &&& bytes[6] == 0
        &&& bytes[7] == 0
    }

    /// Whether the payload is short enough for a message to carry it.
    pub fn fits(&self) -> (fits: bool)
        ensures
            fits == self.spec_fits(),
    {
        self.data.len() <= MAX_PAYLOAD_LENGTH - CHUNK_OVERHEAD
    }

    /// Number of bytes of the payload on the wire.
    pub fn buffer_length(&self) -> (length: usize)
        requires
            self.spec_fits(),
        ensures
            length == self.spec_bytes().len(),
    {
        CHUNK_OVERHEAD + self.data.len()
    }

    /// The payload on the wire.
    pub fn to_vec(&self) -> (bytes: Vec<u8>)
        ensures
            bytes@ == self.spec_bytes(),
    {
        let mut bytes: Vec<u8> = Vec::new();
        let id = u16_to_be(self.id);
        let message_id = u16_to_be(self.message_id);
        let flags: u8 = if self.last {
            1
        } else {
            0
        };
        append(&mut bytes, id.as_slice());
        append(&mut bytes, message_id.as_slice());
        bytes.push(flags);
        bytes.push(0);
        bytes.push(0);
        bytes.push(0);
        append(&mut bytes, self.data.as_slice());
        assert(bytes@ =~= self.spec_bytes());
        bytes
    }

    /// Reads a chunk. The bytes are one when they hold the eight leading
    /// bytes with no flag but the last-chunk flag and nothing in the
    /// reserved bytes. The chunk read is the one whose wire form they are.
    pub fn from_bytes(bytes: &[u8]) -> (payload: Result<Self, DecodeError>)
        ensures
            payload is Ok <==> Self::spec_valid(bytes@),
            payload is Ok ==> payload.unwrap().spec_bytes() == bytes@,
            payload is Err ==> payload == Err::<Self, DecodeError>(DecodeError::InvalidPayload),
    {
        let total = bytes.len();
        if total < CHUNK_OVERHEAD {
            return Err(DecodeError::InvalidPayload);
        }
        if bytes[4] > 1 || bytes[5] != 0 || bytes[6] != 0 || bytes[7] != 0 {
            return Err(DecodeError::InvalidPayload);
        }
        let payload = Chunk {
            id: u16_from_be(bytes, 0),
            message_id: u16_from_be(bytes, 2),
            last: bytes[4] == 1,
            data: slice_to_vec(bytes, CHUNK_OVERHEAD, total),
        };
        proof {
            lemma_u16_be_bytes_round_trip(bytes@.subrange(0, 2));
            lemma_u16_be_bytes_round_trip(bytes@.subrange(2, 4));
            assert(payload.spec_bytes() =~= bytes@);
        }
        Ok(payload)
    }
}

impl Payload {
    /// The tag byte that announces this payload.
    pub open spec fn spec_tag(&self) -> u8 {
        match self {
            Payload::Sum(_) => 1,
            Payload::Update(_) => 2,
            Payload::Sum2(_) => 3,
            Payload::Chunk(_) => 4,
        }
    }

    /// The payload on the wire.
    pub open spec fn spec_bytes(&self) -> Seq<u8> {
        match self {
            Payload::Sum(p) => p.spec_bytes(),
            Payload::Update(p) => p.spec_bytes(),
            Payload::Sum2(p) => p.spec_bytes(),
            Payload::Chunk(p) => p.spec_bytes(),
        }
    }

    /// Whether the payload is short enough for a message to carry it.
    pub open spec fn spec_fits(&self) -> bool {
        match self {
            Payload::Sum(_) => true,
            Payload::Update(p) => p.spec_fits(),
            Payload::Sum2(p) => p.spec_fits(),
            Payload::Chunk(p) => p.spec_fits(),
        }
    }

    /// Whether `bytes` are the wire form of a payload with the tag `tag`.
    pub open spec fn spec_valid(tag: u8, bytes: Seq<u8>) -> bool {
        if tag == 1 {
            bytes.len() == SUM_LENGTH
        } else if tag == 2 {
            Update::spec_valid(bytes)
        } else if tag == 3 {
            Sum2::spec_valid(bytes)
        } else if tag == 4 {
            Chunk::spec_valid(bytes)
        } else {
            false
        }
    }

    /// Whether this is a chunk of a longer message.
    pub fn is_chunk(&self) -> (chunk: bool)
        ensures
            chunk == (self is Chunk),
    {
        match self {
            Payload::Chunk(_) => true,
            _ => false,
        }
    }

    /// Whether the payload is short enough for a message to carry it.
    pub fn fits(&self) -> (fits: bool)
        ensures
            fits == self.spec_fits(),
    {
        match self {
            Payload::Sum(_) => true,
            Payload::Update(p) => p.fits(),
            Payload::Sum2(p) => p.fits(),
            Payload::Chunk(p) => p.fits(),
        }
    }

    /// Number of bytes of the payload on the wire.
    pub fn buffer_length(&self) -> (length: usize)
        requires
            self.spec_fits(),
        ensures
            length == self.spec_bytes().len(),
            length <= MAX_PAYLOAD_LENGTH,
    {
        match self {
            Payload::Sum(p) => p.buffer_length(),
            Payload::Update(p) => {
                proof {
                    lemma_entries_bytes_len(p.local_seed_dict@);
                }
                p.buffer_length()
            },
            Payload::Sum2(p) => p.buffer_length(),
            Payload::Chunk(p) => p.buffer_length(),
        }
    }

    /// The payload on the wire.
    pub fn to_vec(&self) -> (bytes: Vec<u8>)
        requires
            self.spec_fits(),
        ensures
            bytes@ == self.spec_bytes(),
    {
        match self {
            Payload::Sum(p) => p.to_vec(),
            Payload::Update(p) => p.to_vec(),
            Payload::Sum2(p) => p.to_vec(),
            Payload::Chunk(p) => p.to_vec(),
        }
    }
}

/// A length-prefixed field that was written is read: where the bytes
/// hold the wire form of `field` at `offset`, the field is found to end
/// where its wire form ends.
pub proof fn lemma_prefixed_is_read(bytes: Seq<u8>, offset: int, field: Seq<u8>)
    requires
        0 <= offset,
        offset + 4 + field.len() <= bytes.len(),
        field.len() + 4 <= u32::MAX,
        bytes.subrange(offset, offset + 4 + field.len()) == spec_prefixed(field),
    ensures
        spec_prefixed_end(bytes, offset) == Some(offset + 4 + field.len()),
        bytes.subrange(offset + 4, offset + 4 + field.len()) == field,
{
    let length = (field.len() + 4) as u32;
    lemma_u32_be_round_trip(length);
    let window = bytes.subrange(offset, offset + 4 + field.len());
    assert(bytes.subrange(offset, offset + 4) =~= window.subrange(0, 4));
    assert(window.subrange(0, 4) =~= spec_u32_to_be(length));
    let end = 4 + field.len() as int;
    assert(bytes.subrange(offset + 4, offset + 4 + field.len()) =~= window.subrange(4, end));
    assert(window.subrange(4, end) =~= field);
}

/// Where the key of an entry stands among the entries on the wire.
pub proof fn lemma_entry_key(entries: Seq<(PublicSigningKey, EncryptedMaskSeed)>, index: int)
    requires
        0 <= index < entries.len(),
    ensures
        spec_entry_key(spec_entries_bytes(entries), 0, index) == entries[index].0.bytes@,
    decreases entries.len(),
{
    let all = spec_entries_bytes(entries);
    let head = spec_entries_bytes(entries.drop_last());
    lemma_entries_bytes_len(entries.drop_last());
    lemma_entries_bytes_len(entries);
    if index == entries.len() - 1 {
        assert(spec_entry_key(all, 0, index) =~= entries.last().0.bytes@);
    } else {
        lemma_entry_key(entries.drop_last(), index);
        assert(spec_entry_key(all, 0, index) =~= spec_entry_key(head, 0, index));
    }
}

/// Entries that were written are read: the wire form of entries with no
/// key twice is a whole number of entries with no key twice.
pub proof fn lemma_entries_are_read(
    bytes: Seq<u8>,
    start: int,
    entries: Seq<(PublicSigningKey, EncryptedMaskSeed)>,
)
    requires
        0 <= start <= bytes.len(),
        bytes.subrange(start, bytes.len() as int) == spec_entries_bytes(entries),
        distinct_keys(entries),
    ensures
        spec_entries_valid(bytes, start),
{
    lemma_entries_bytes_len(entries);
    let count = entries.len() as int;
    let size = SEED_ENTRY_LENGTH as int;
    assert(bytes.len() - start == size * count);
    assert((size * count) % size == 0 && (size * count) / size == count) by (nonlinear_arith)
        requires
            size == 112,
            count >= 0,
    ;
    assert forall|i: int, j: int| 0 <= i < j < count implies spec_entry_key(bytes, start, i)
        != spec_entry_key(bytes, start, j) by {
        lemma_entry_key(entries, i);
        lemma_entry_key(entries, j);
        let wire = spec_entries_bytes(entries);
        assert(size * i + 32 <= size * count && size * j + 32 <= size * count) by (nonlinear_arith)
            requires
                size == 112,
                0 <= i < j < count,
        ;
        assert(spec_entry_key(bytes, start, i) =~= spec_entry_key(wire, 0, i));
        assert(spec_entry_key(bytes, start, j) =~= spec_entry_key(wire, 0, j));
        assert(entries[i].0 != entries[j].0);
        if entries[i].0.bytes@ == entries[j].0.bytes@ {
            assert(entries[i].0.bytes =~= entries[j].0.bytes);
        }
    }
}

/// Encoding then decoding: the wire form of a payload is the wire form
/// of a payload of its kind, so that what is written is read. The seed
/// dictionary of an update payload must hold no key twice, as every
/// dictionary does.
pub proof fn lemma_payload_bytes_are_valid(payload: Payload)
    requires
        payload.spec_fits(),
        payload matches Payload::Update(update) ==> distinct_keys(update.local_seed_dict@),
    ensures
        Payload::spec_valid(payload.spec_tag(), payload.spec_bytes()),
{
    match payload {
        Payload::Sum(_) => {},
        Payload::Update(update) => {
            let bytes = update.spec_bytes();
            let model = update.masked_model@;
            let entries = update.local_seed_dict@;
            let wire = spec_entries_bytes(entries);
            lemma_entries_bytes_len(entries);
            let model_end = 128 + 4 + model.len() as int;
            assert(bytes.len() == model_end + 4 + wire.len());
            assert(bytes.subrange(128, model_end) =~= spec_prefixed(model));
            lemma_prefixed_is_read(bytes, 128, model);
            assert(bytes.subrange(model_end, bytes.len() as int) =~= spec_prefixed(wire));
            lemma_prefixed_is_read(bytes, model_end, wire);
            assert(bytes.subrange(model_end + 4, bytes.len() as int) =~= wire);
            lemma_entries_are_read(bytes, model_end + 4, entries);
        },
        Payload::Sum2(sum2) => {
            let bytes = sum2.spec_bytes();
            let mask = sum2.model_mask@;
            assert(bytes.subrange(64, bytes.len() as int) =~= spec_prefixed(mask));
            lemma_prefixed_is_read(bytes, 64, mask);
        },
        Payload::Chunk(chunk) => {
            let bytes = chunk.spec_bytes();
            assert(bytes[4] == spec_flags(chunk.last));
            assert(bytes[5] == 0 && bytes[6] == 0 && bytes[7] == 0);
        },
    }
}

/// A payload whose wire form is short enough for a message to carry it
/// fits: what was read from a message can be written into one.
pub proof fn lemma_fits_by_length(payload: Payload)
    requires
        payload.spec_bytes().len() <= MAX_PAYLOAD_LENGTH,
    ensures
        payload.spec_fits(),
{
    match payload {
        Payload::Update(update) => {
            lemma_entries_bytes_len(update.local_seed_dict@);
        },
        _ => {},
    }
}

} // verus!
