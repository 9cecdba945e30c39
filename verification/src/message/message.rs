//! A whole message: who signed it, the signature, and the payload.

use vstd::prelude::*;
use vstd::std_specs::convert::{FromSpecImpl, TryFromSpecImpl};
use crate::bytes::{
    append, array32_at, array64_at, copy_into, lemma_u32_be_bytes_round_trip,
    lemma_u32_be_round_trip, spec_u32_to_be, u32_to_be,
};
use crate::crypto::{
    detached_signature, spec_sign, PublicSigningKey, SecretSigningKey, Signature,
};
use crate::dict::distinct_keys;
use crate::message::buffer::{
    spec_check, spec_header, spec_header_valid, spec_length, spec_participant_pk, spec_payload,
    spec_signature, spec_signed_data, spec_tag, DecodeError, MessageBuffer, HEADER_LENGTH,
};
use crate::message::payload::{Chunk, Payload, Sum, Sum2, Update};

verus! {

/// The kind of payload that a message carries.
#[derive(Copy, Debug, Clone, Eq, PartialEq)]
pub enum Tag {
    /// A sum payload.
    Sum,
    /// An update payload.
    Update,
    /// A sum2 payload.
    Sum2,
    /// A chunk of a longer message.
    Chunk,
}

impl Tag {
    /// The byte that stands for the tag on the wire.
    pub open spec fn spec_byte(self) -> u8 {
        match self {
            Tag::Sum => 1,
            Tag::Update => 2,
            Tag::Sum2 => 3,
            Tag::Chunk => 4,
        }
    }

    /// The tag that a byte stands for, if it stands for one.
    pub open spec fn spec_from_byte(value: u8) -> Result<Tag, DecodeError> {
        if value == 1 {
            Ok(Tag::Sum)
        } else if value == 2 {
            Ok(Tag::Update)
        } else if value == 3 {
            Ok(Tag::Sum2)
        } else if value == 4 {
            Ok(Tag::Chunk)
        } else {
            Err(DecodeError::InvalidTag)
        }
    }

    /// The tag that announces `payload`.
    pub fn of(payload: &Payload) -> (tag: Tag)
        ensures
            tag.spec_byte() == payload.spec_tag(),
    {
        match payload {
            Payload::Sum(_) => Tag::Sum,
            Payload::Update(_) => Tag::Update,
            Payload::Sum2(_) => Tag::Sum2,
            Payload::Chunk(_) => Tag::Chunk,
        }
    }
}

impl TryFrom<u8> for Tag {
    type Error = DecodeError;

    fn try_from(value: u8) -> (tag: Result<Self, DecodeError>) {
        match value {
            1 => Ok(Tag::Sum),
            2 => Ok(Tag::Update),
            3 => Ok(Tag::Sum2),
            4 => Ok(Tag::Chunk),
            _ => Err(DecodeError::InvalidTag),
        }
    }
}

impl TryFromSpecImpl<u8> for Tag {
    open spec fn obeys_try_from_spec() -> bool {
        true
    }

    open spec fn try_from_spec(value: u8) -> Result<Self, DecodeError> {
        Tag::spec_from_byte(value)
    }
}

impl From<Tag> for u8 {
    fn from(tag: Tag) -> (byte: u8) {
        match tag {
            Tag::Sum => 1,
            Tag::Update => 2,
            Tag::Sum2 => 3,
            Tag::Chunk => 4,
        }
    }
}

impl FromSpecImpl<Tag> for u8 {
    open spec fn obeys_from_spec() -> bool {
        true
    }

    open spec fn from_spec(tag: Tag) -> u8 {
        tag.spec_byte()
    }
}

/// Reading the byte of a tag gives the tag back.
pub proof fn lemma_tag_round_trip(tag: Tag)
    ensures
        Tag::spec_from_byte(tag.spec_byte()) == Ok::<Tag, DecodeError>(tag),
{
}

/// A message, as a participant writes it and a coordinator reads it.
#[derive(Debug, Eq, PartialEq, Clone)]
pub struct Message {
    /// The signature; `None` while it has not been computed.
    pub signature: Option<Signature>,
    /// The key against which the signature verifies.
    pub participant_pk: PublicSigningKey,
    /// What the message carries.
    pub payload: Payload,
}

/// The part of a message that is signed: everything after the signature.
pub open spec fn spec_body(participant_pk: Seq<u8>, tag: u8, payload: Seq<u8>) -> Seq<u8>
    recommends
        HEADER_LENGTH + payload.len() <= u32::MAX,
{
    participant_pk + spec_u32_to_be((HEADER_LENGTH + payload.len()) as u32) + seq![
        tag,
        0u8,
        0u8,
        0u8,
    ] + payload
}

/// The signed message that a key pair makes of a tag and a payload.
pub open spec fn spec_signed_message(
    secret_key: Seq<u8>,
    participant_pk: Seq<u8>,
    tag: u8,
    payload: Seq<u8>,
) -> Seq<u8> {
    detached_signature(secret_key, spec_body(participant_pk, tag, payload)) + spec_body(
        participant_pk,
        tag,
        payload,
    )
}

/// The part of a message that is signed, for a payload that is already in
/// its wire form.
pub fn message_body(participant_pk: &PublicSigningKey, tag: Tag, payload: &[u8]) -> (body: Vec<u8>)
    requires
        HEADER_LENGTH + payload@.len() <= u32::MAX,
    ensures
        body@ == spec_body(participant_pk.bytes@, tag.spec_byte(), payload@),
        body@.len() == HEADER_LENGTH - 64 + payload@.len(),
{
    let length: u32 = (HEADER_LENGTH + payload.len()) as u32;
    let mut body: Vec<u8> = Vec::new();
    append(&mut body, participant_pk.bytes.as_slice());
    append(&mut body, u32_to_be(length).as_slice());
    body.push(u8::from(tag));
    body.push(0);
    body.push(0);
    body.push(0);
    append(&mut body, payload);
    assert(body@ =~= spec_body(participant_pk.bytes@, tag.spec_byte(), payload@));
    body
}

/// Whether the three reserved bytes of a header are zero.
pub open spec fn spec_reserved_zero(bytes: Seq<u8>) -> bool
    recommends
        bytes.len() >= HEADER_LENGTH,
{
    bytes[101] == 0 && bytes[102] == 0 && bytes[103] == 0
}

/// Whether `bytes` are a whole message that reads as the given fields:
/// they pass the bounds check, announce their own length, hold the
/// signature, the key and the tag in the header, nothing in the reserved
/// bytes, and the payload after the header.
pub open spec fn spec_reads_as(
    bytes: Seq<u8>,
    signature: Seq<u8>,
    participant_pk: Seq<u8>,
    tag: u8,
    payload: Seq<u8>,
) -> bool {
    &&& spec_header_valid(bytes)
    &&& spec_length(bytes) == bytes.len()
    &&& spec_signature(bytes) == signature
    &&& spec_participant_pk(bytes) == participant_pk
    &&& spec_tag(bytes) == tag
    &&& spec_reserved_zero(bytes)
    &&& spec_payload(bytes) == payload
    &&& spec_signed_data(bytes) == spec_body(participant_pk, tag, payload)
}

/// Encoding then decoding: a message that is written reads back as what
/// was written.
pub proof fn lemma_written_message_reads_back(
    signature: Seq<u8>,
    participant_pk: Seq<u8>,
    tag: u8,
    payload: Seq<u8>,
)
    requires
        signature.len() == 64,
        participant_pk.len() == 32,
        HEADER_LENGTH + payload.len() <= u32::MAX,
    ensures
        spec_reads_as(
            signature + spec_body(participant_pk, tag, payload),
            signature,
            participant_pk,
            tag,
            payload,
        ),
{
    let length = (HEADER_LENGTH + payload.len()) as u32;
    let bytes = signature + spec_body(participant_pk, tag, payload);
    lemma_header_fields(signature, participant_pk, length, tag);
    let header = spec_header(signature, participant_pk, length, tag);
    assert(bytes =~= header + payload);
    assert(bytes.subrange(0, 64) =~= header.subrange(0, 64));
    assert(bytes.subrange(64, 96) =~= header.subrange(64, 96));
    assert(bytes.subrange(96, 100) =~= header.subrange(96, 100));
    assert(spec_payload(bytes) =~= payload);
    assert(spec_signed_data(bytes) =~= spec_body(participant_pk, tag, payload));
}

/// Why `bytes` are no message, or `None` if they are one.
pub open spec fn spec_decode_error(bytes: Seq<u8>) -> Option<DecodeError> {
    match spec_check(bytes) {
        Err(e) => Some(e),
        Ok(()) => if Tag::spec_from_byte(spec_tag(bytes)) is Err {
            Some(DecodeError::InvalidTag)
        } else if !Payload::spec_valid(
            spec_tag(bytes),
            bytes.subrange(HEADER_LENGTH as int, spec_length(bytes)),
        ) {
            Some(DecodeError::InvalidPayload)
        } else {
            None
        },
    }
}

/// Whether `message` is what `bytes` say: the header's signature and key,
/// and the payload whose tag and wire form stand in the bytes, up to the
/// length that the header announces.
pub open spec fn spec_decodes_to(bytes: Seq<u8>, message: Message) -> bool {
    &&& spec_header_valid(bytes)
    &&& message.signature is Some
    &&& message.signature.unwrap().bytes@ == spec_signature(bytes)
    &&& message.participant_pk.bytes@ == spec_participant_pk(bytes)
    &&& message.payload.spec_tag() == spec_tag(bytes)
    &&& message.payload.spec_bytes() == bytes.subrange(HEADER_LENGTH as int, spec_length(bytes))
}

impl Message {
    /// The signed part of the message on the wire.
    pub open spec fn spec_signed_data(&self) -> Seq<u8> {
        spec_body(self.participant_pk.bytes@, self.payload.spec_tag(), self.payload.spec_bytes())
    }

    /// The signature that the message goes out with: the one it has, or
    /// else the one that `sk` makes of the signed part.
    pub open spec fn spec_signature_value(&self, sk: SecretSigningKey) -> Signature {
        match self.signature {
            Some(signature) => signature,
            None => spec_sign(sk, self.spec_signed_data()),
        }
    }

    /// The signature on the wire.
    pub open spec fn spec_signature(&self, sk: SecretSigningKey) -> Seq<u8> {
        self.spec_signature_value(sk).bytes@
    }

    /// The message on the wire.
    pub open spec fn spec_bytes(&self, sk: SecretSigningKey) -> Seq<u8> {
        self.spec_signature(sk) + self.spec_signed_data()
    }

    /// Number of bytes of the message on the wire.
    pub fn buffer_length(&self) -> (length: usize)
        requires
            self.payload.spec_fits(),
        ensures
            length == HEADER_LENGTH + self.payload.spec_bytes().len(),
            length <= u32::MAX,
    {
        self.payload.buffer_length() + HEADER_LENGTH
    }

    /// The message on the wire. Where the message has no signature yet,
    /// it is signed with `sk`.
    pub fn to_vec(&self, sk: &SecretSigningKey) -> (bytes: Vec<u8>)
        requires
            self.payload.spec_fits(),
        ensures
            bytes@ == self.spec_bytes(*sk),
            bytes@.len() == HEADER_LENGTH + self.payload.spec_bytes().len(),
            spec_reads_as(
                bytes@,
                self.spec_signature(*sk),
                self.participant_pk.bytes@,
                self.payload.spec_tag(),
                self.payload.spec_bytes(),
            ),
    {
        let length = self.buffer_length();
        let payload = self.payload.to_vec();
        let body = message_body(&self.participant_pk, Tag::of(&self.payload), payload.as_slice());
        let signature = match self.signature {
            Some(signature) => signature,
            None => sk.sign_detached(body.as_slice()),
        };
        let mut bytes: Vec<u8> = Vec::new();
        append(&mut bytes, signature.bytes.as_slice());
        append(&mut bytes, body.as_slice());
        proof {
            lemma_written_message_reads_back(
                signature.bytes@,
                self.participant_pk.bytes@,
                self.payload.spec_tag(),
                self.payload.spec_bytes(),
            );
        }
        bytes
    }

    /// Writes the message at the start of `buffer` and leaves the bytes
    /// after it as they were. Where the message has no signature yet, it
    /// is signed with `sk`.
    pub fn to_bytes(&self, buffer: &mut [u8], sk: &SecretSigningKey)
        requires
            self.payload.spec_fits(),
            old(buffer)@.len() >= HEADER_LENGTH + self.payload.spec_bytes().len(),
        ensures
            final(buffer)@ == self.spec_bytes(*sk) + old(buffer)@.subrange(
                HEADER_LENGTH + self.payload.spec_bytes().len(),
                old(buffer)@.len() as int,
            ),
    {
        let bytes = self.to_vec(sk);
        copy_into(buffer, 0, bytes.as_slice());
        assert(final(buffer)@ =~= self.spec_bytes(*sk) + old(buffer)@.subrange(
            HEADER_LENGTH + self.payload.spec_bytes().len(),
            old(buffer)@.len() as int,
        ));
    }

    /// Reads a message, without verifying its signature. A message that
    /// was read can be written again: its payload fits.
    ///
    /// The bytes must pass the bounds check, carry a known tag, and hold
    /// between the header and the announced length the wire form of a
    /// payload of that kind. The errors come in that order.
    pub fn from_bytes(buffer: &[u8]) -> (message: Result<Self, DecodeError>)
        ensures
            match message {
                Ok(m) => spec_decode_error(buffer@) is None && spec_decodes_to(buffer@, m)
                    && m.payload.spec_fits(),
                Err(e) => spec_decode_error(buffer@) == Some(e),
            },
    {
        let reader = match MessageBuffer::<&[u8]>::new(buffer) {
            Ok(reader) => reader,
            Err(e) => {
                return Err(e);
            },
        };
        let participant_pk = PublicSigningKey { bytes: array32_at(buffer, 64) };
        let signature = Signature { bytes: array64_at(buffer, 0) };
        let end = reader.length() as usize;
        let body = vstd::slice::slice_subrange(buffer, HEADER_LENGTH, end);
        let tag = match Tag::try_from(reader.tag()) {
            Ok(tag) => tag,
            Err(e) => {
                return Err(e);
            },
        };
        let payload = match tag {
            Tag::Sum => match Sum::from_bytes(body) {
                Ok(p) => Payload::Sum(p),
                Err(e) => {
                    return Err(e);
                },
            },
            Tag::Update => match Update::from_bytes(body) {
                Ok(p) => Payload::Update(p),
                Err(e) => {
                    return Err(e);
                },
            },
            Tag::Sum2 => match Sum2::from_bytes(body) {
                Ok(p) => Payload::Sum2(p),
                Err(e) => {
                    return Err(e);
                },
            },
            Tag::Chunk => match Chunk::from_bytes(body) {
                Ok(p) => Payload::Chunk(p),
                Err(e) => {
                    return Err(e);
                },
            },
        };
        proof {
            crate::message::payload::lemma_fits_by_length(payload);
        }
        Ok(Message { participant_pk, signature: Some(signature), payload })
    }
}

/// Header round trip, from fields to bytes and back: the header that four
/// fields make passes for a header and gives the same four fields.
pub proof fn lemma_header_fields(
    signature: Seq<u8>,
    participant_pk: Seq<u8>,
    length: u32,
    tag: u8,
)
    requires
        signature.len() == 64,
        participant_pk.len() == 32,
    ensures
        spec_header(signature, participant_pk, length, tag).len() == HEADER_LENGTH,
        spec_signature(spec_header(signature, participant_pk, length, tag)) == signature,
        spec_participant_pk(spec_header(signature, participant_pk, length, tag))
            == participant_pk,
        spec_length(spec_header(signature, participant_pk, length, tag)) == length,
        spec_tag(spec_header(signature, participant_pk, length, tag)) == tag,
        spec_reserved_zero(spec_header(signature, participant_pk, length, tag)),
{
    let header = spec_header(signature, participant_pk, length, tag);
    lemma_u32_be_round_trip(length);
    assert(header.subrange(0, 64) =~= signature);
    assert(header.subrange(64, 96) =~= participant_pk);
    assert(header.subrange(96, 100) =~= spec_u32_to_be(length));
}

/// Header round trip, from bytes to fields and back: the four fields read
/// from a header whose reserved bytes are zero make that header again,
/// byte for byte.
pub proof fn lemma_header_round_trip(bytes: Seq<u8>)
    requires
        bytes.len() >= HEADER_LENGTH,
        spec_reserved_zero(bytes),
    ensures
        0 <= spec_length(bytes) <= u32::MAX,
        spec_header(
            spec_signature(bytes),
            spec_participant_pk(bytes),
            spec_length(bytes) as u32,
            spec_tag(bytes),
        ) == bytes.subrange(0, HEADER_LENGTH as int),
{
    lemma_u32_be_bytes_round_trip(bytes.subrange(96, 100));
    assert(spec_header(
        spec_signature(bytes),
        spec_participant_pk(bytes),
        spec_length(bytes) as u32,
        spec_tag(bytes),
    ) =~= bytes.subrange(0, HEADER_LENGTH as int));
}

/// Decoding then encoding: a message read from bytes whose reserved bytes
/// are zero is written as those same bytes, up to the announced length.
/// The secret key plays no part, since a message that was read has its
/// signature.
pub proof fn lemma_decode_then_encode(bytes: Seq<u8>, message: Message, sk: SecretSigningKey)
    requires
        spec_decodes_to(bytes, message),
        spec_reserved_zero(bytes),
    ensures
        message.spec_bytes(sk) == bytes.subrange(0, spec_length(bytes)),
{
    lemma_header_round_trip(bytes);
    let length = spec_length(bytes);
    let payload = bytes.subrange(HEADER_LENGTH as int, length);
    assert(HEADER_LENGTH + payload.len() == length);
    assert(message.spec_bytes(sk) =~= spec_header(
        spec_signature(bytes),
        spec_participant_pk(bytes),
        length as u32,
        spec_tag(bytes),
    ) + payload);
    assert(bytes.subrange(0, length) =~= bytes.subrange(0, HEADER_LENGTH as int) + payload);
}

/// Encoding then decoding: a message that is written is read, and reads
/// as the message that was written, with the signature it went out
/// with. The seed dictionary of an update payload must hold no key
/// twice, as every dictionary does.
pub proof fn lemma_encode_then_decode(message: Message, sk: SecretSigningKey)
    requires
        message.payload.spec_fits(),
        message.payload matches Payload::Update(update) ==> distinct_keys(
            update.local_seed_dict@,
        ),
    ensures
        spec_decode_error(message.spec_bytes(sk)) is None,
        spec_decodes_to(
            message.spec_bytes(sk),
            Message {
                signature: Some(message.spec_signature_value(sk)),
                participant_pk: message.participant_pk,
                payload: message.payload,
            },
        ),
{
    let bytes = message.spec_bytes(sk);
    let payload = message.payload.spec_bytes();
    crate::message::payload::lemma_payload_bytes_are_valid(message.payload);
    assert(HEADER_LENGTH + payload.len() <= u32::MAX) by {
        match message.payload {
            Payload::Sum(_) => {},
            Payload::Update(update) => {
                crate::message::payload::lemma_entries_bytes_len(update.local_seed_dict@);
            },
            Payload::Sum2(_) => {},
            Payload::Chunk(_) => {},
        }
    }
    lemma_written_message_reads_back(
        message.spec_signature(sk),
        message.participant_pk.bytes@,
        message.payload.spec_tag(),
        payload,
    );
    assert(bytes.subrange(HEADER_LENGTH as int, spec_length(bytes)) =~= payload);
}

} // verus!
