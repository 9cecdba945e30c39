//! The fixed header of a signed message and a checked window onto it.
//!
//! | offset | length | field                                   |
//! |--------|--------|-----------------------------------------|
//! | 0      | 64     | signature over bytes `64 .. length`     |
//! | 64     | 32     | participant public signing key          |
//! | 96     | 4      | total message length, big-endian        |
//! | 100    | 1      | tag                                     |
//! | 101    | 3      | reserved, zero                          |
//! | 104    | —      | payload                                 |

use vstd::prelude::*;
use crate::bytes::{spec_u32_from_be, spec_u32_to_be, u32_from_be, u32_to_be, copy_into};
use crate::crypto::{PublicSigningKey, Signature, signature_verifies};

verus! {

/// First byte after the signature.
pub const SIGNATURE_END: usize = 64;

/// First byte after the participant public key.
pub const PARTICIPANT_PK_END: usize = 96;

/// First byte after the length field.
pub const LENGTH_END: usize = 100;

/// Offset of the tag.
pub const TAG: usize = 100;

/// Length in bytes of a message header.
pub const HEADER_LENGTH: usize = 104;

/// Why bytes were refused as a message.
#[derive(Clone, Copy, Debug, PartialEq, Eq)]
pub enum DecodeError {
    /// The buffer cannot hold a header.
    BufferTooShort,
    /// The length field counts fewer bytes than a header has.
    LengthBelowHeader,
    /// The length field counts more bytes than the buffer has.
    LengthBeyondBuffer,
    /// The tag is none of the four known ones.
    InvalidTag,
    /// The payload does not have the shape that its tag announces.
    InvalidPayload,
    /// The signature does not verify.
    InvalidSignature,
}

/// The length field of a header.
pub open spec fn spec_length(bytes: Seq<u8>) -> int
    recommends
        bytes.len() >= HEADER_LENGTH,
{
    spec_u32_from_be(bytes.subrange(PARTICIPANT_PK_END as int, LENGTH_END as int))
}

/// The tag field of a header.
pub open spec fn spec_tag(bytes: Seq<u8>) -> u8
    recommends
        bytes.len() >= HEADER_LENGTH,
{
    bytes[TAG as int]
}

/// The signature field of a header.
pub open spec fn spec_signature(bytes: Seq<u8>) -> Seq<u8>
    recommends
        bytes.len() >= HEADER_LENGTH,
{
    bytes.subrange(0, SIGNATURE_END as int)
}

/// The participant public key field of a header.
pub open spec fn spec_participant_pk(bytes: Seq<u8>) -> Seq<u8>
    recommends
        bytes.len() >= HEADER_LENGTH,
{
    bytes.subrange(SIGNATURE_END as int, PARTICIPANT_PK_END as int)
}

/// Everything after the header.
pub open spec fn spec_payload(bytes: Seq<u8>) -> Seq<u8>
    recommends
        bytes.len() >= HEADER_LENGTH,
{
    bytes.subrange(HEADER_LENGTH as int, bytes.len() as int)
}

/// The bytes that the signature covers: from the end of the signature to
/// the length that the header announces.
pub open spec fn spec_signed_data(bytes: Seq<u8>) -> Seq<u8>
    recommends
        spec_header_valid(bytes),
{
    bytes.subrange(SIGNATURE_END as int, spec_length(bytes))
}

/// What the bounds check says of `bytes`.
pub open spec fn spec_check(bytes: Seq<u8>) -> Result<(), DecodeError> {
    if bytes.len() < HEADER_LENGTH {
        Err(DecodeError::BufferTooShort)
    } else if spec_length(bytes) < HEADER_LENGTH {
        Err(DecodeError::LengthBelowHeader)
    } else if bytes.len() < spec_length(bytes) {
        Err(DecodeError::LengthBeyondBuffer)
    } else {
        Ok(())
    }
}

/// A buffer passes the bounds check when it holds a header whose length
/// field lies between the header's own length and the buffer's.
pub open spec fn spec_header_valid(bytes: Seq<u8>) -> bool {
    &&& bytes.len() >= HEADER_LENGTH
    &&& HEADER_LENGTH <= spec_length(bytes) <= bytes.len()
}

/// The header that the four fields make, with the reserved bytes zero.
pub open spec fn spec_header(
    signature: Seq<u8>,
    participant_pk: Seq<u8>,
    length: u32,
    tag: u8,
) -> Seq<u8>
    recommends
        signature.len() == 64,
        participant_pk.len() == 32,
{
    signature + participant_pk + spec_u32_to_be(length) + seq![tag, 0u8, 0u8, 0u8]
}

/// Header round trip through the window: writing into a buffer the
/// fields that were read from it leaves the buffer as it was, byte for
/// byte. This holds of every buffer that holds a header, whatever its
/// reserved bytes are, since the window does not touch them.
pub proof fn lemma_rewriting_changes_nothing(bytes: Seq<u8>)
    requires
        bytes.len() >= HEADER_LENGTH,
    ensures
        0 <= spec_length(bytes) <= u32::MAX,
        bytes.update(TAG as int, spec_tag(bytes)) == bytes,
        bytes.subrange(0, PARTICIPANT_PK_END as int) + spec_u32_to_be(spec_length(bytes) as u32)
            + bytes.subrange(LENGTH_END as int, bytes.len() as int) == bytes,
        spec_signature(bytes) + bytes.subrange(SIGNATURE_END as int, bytes.len() as int) == bytes,
        bytes.subrange(0, SIGNATURE_END as int) + spec_participant_pk(bytes) + bytes.subrange(
            PARTICIPANT_PK_END as int,
            bytes.len() as int,
        ) == bytes,
        bytes.subrange(0, HEADER_LENGTH as int) + spec_payload(bytes) == bytes,
{
    crate::bytes::lemma_u32_be_bytes_round_trip(
        bytes.subrange(PARTICIPANT_PK_END as int, LENGTH_END as int),
    );
    assert(bytes.update(TAG as int, spec_tag(bytes)) =~= bytes);
    assert(bytes.subrange(0, PARTICIPANT_PK_END as int) + spec_u32_to_be(
        spec_length(bytes) as u32,
    ) + bytes.subrange(LENGTH_END as int, bytes.len() as int) =~= bytes);
    assert(spec_signature(bytes) + bytes.subrange(SIGNATURE_END as int, bytes.len() as int)
        =~= bytes);
    assert(bytes.subrange(0, SIGNATURE_END as int) + spec_participant_pk(bytes) + bytes.subrange(
        PARTICIPANT_PK_END as int,
        bytes.len() as int,
    ) =~= bytes);
    assert(bytes.subrange(0, HEADER_LENGTH as int) + spec_payload(bytes) =~= bytes);
}

/// A window onto bytes that hold a message.
///
/// It gives the header's fields by name. `new` checks the bounds first;
/// `new_unchecked` does not, and the accessors then ask of their caller
/// that the bytes they touch are there. A window for writing stays on
/// the bytes it was made on: what is written through it is written
/// into them.
pub struct MessageBuffer<T> {
    pub inner: T,
}

impl<T> MessageBuffer<T> {
    /// A window onto `bytes`, without any check.
    pub fn new_unchecked(bytes: T) -> (buffer: Self)
        ensures
            buffer.inner == bytes,
    {
        MessageBuffer { inner: bytes }
    }
}

impl<'a> MessageBuffer<&'a [u8]> {
    /// A window onto `bytes`, if they pass the bounds check.
    pub fn new(bytes: &'a [u8]) -> (buffer: Result<Self, DecodeError>)
        ensures
            match buffer {
                Ok(b) => spec_check(bytes@) is Ok && b.inner@ == bytes@,
                Err(e) => spec_check(bytes@) == Err::<(), DecodeError>(e),
            },
    {
        let buffer = MessageBuffer { inner: bytes };
        match buffer.check_buffer_length() {
            Ok(()) => Ok(buffer),
            Err(e) => Err(e),
        }
    }

    /// Checks that the buffer holds a header and as many bytes as the
    /// header announces, and that it announces at least a header.
    pub fn check_buffer_length(&self) -> (checked: Result<(), DecodeError>)
        ensures
            checked == spec_check(self.inner@),
            checked is Ok <==> spec_header_valid(self.inner@),
    {
        let len = self.inner.len();
        if len < HEADER_LENGTH {
            return Err(DecodeError::BufferTooShort);
        }
        let expected_len = self.length() as usize;
        if expected_len < HEADER_LENGTH {
            return Err(DecodeError::LengthBelowHeader);
        }
        if len < expected_len {
            return Err(DecodeError::LengthBeyondBuffer);
        }
        Ok(())
    }

    /// The tag field.
    pub fn tag(&self) -> (tag: u8)
        requires
            self.inner@.len() >= HEADER_LENGTH,
        ensures
            tag == spec_tag(self.inner@),
    {
        self.inner[TAG]
    }

    /// The length field.
    pub fn length(&self) -> (length: u32)
        requires
            self.inner@.len() >= HEADER_LENGTH,
        ensures
            length == spec_length(self.inner@),
    {
        u32_from_be(self.inner, PARTICIPANT_PK_END)
    }

    /// The signature field.
    pub fn signature(&self) -> (signature: &'a [u8])
        requires
            self.inner@.len() >= HEADER_LENGTH,
        ensures
            signature@ == spec_signature(self.inner@),
    {
        vstd::slice::slice_subrange(self.inner, 0, SIGNATURE_END)
    }

    /// The participant public key field.
    pub fn participant_pk(&self) -> (participant_pk: &'a [u8])
        requires
            self.inner@.len() >= HEADER_LENGTH,
        ensures
            participant_pk@ == spec_participant_pk(self.inner@),
    {
        vstd::slice::slice_subrange(self.inner, SIGNATURE_END, PARTICIPANT_PK_END)
    }

    /// The rest of the buffer after the header.
    pub fn payload(&self) -> (payload: &'a [u8])
        requires
            self.inner@.len() >= HEADER_LENGTH,
        ensures
            payload@ == spec_payload(self.inner@),
    {
        vstd::slice::slice_subrange(self.inner, HEADER_LENGTH, self.inner.len())
    }

    /// The part of the message that the signature covers: all of it but
    /// the signature field.
    pub fn signed_data(&self) -> (signed_data: &'a [u8])
        requires
            spec_header_valid(self.inner@),
        ensures
            signed_data@ == spec_signed_data(self.inner@),
    {
        let end = self.length() as usize;
        vstd::slice::slice_subrange(self.inner, SIGNATURE_END, end)
    }

    /// Verifies the signature field against the participant key field and
    /// the signed part of the message.
    pub fn check_signature(&self) -> (checked: Result<(), DecodeError>)
        requires
            spec_header_valid(self.inner@),
        ensures
            checked is Ok <==> signature_verifies(
                spec_participant_pk(self.inner@),
                spec_signature(self.inner@),
                spec_signed_data(self.inner@),
            ),
            checked is Err ==> checked == Err::<(), DecodeError>(DecodeError::InvalidSignature),
    {
        let signature = Signature { bytes: crate::bytes::array64_at(self.inner, 0) };
        let participant_pk = PublicSigningKey {
            bytes: crate::bytes::array32_at(self.inner, SIGNATURE_END),
        };
        if participant_pk.verify_detached(&signature, self.signed_data()) {
            Ok(())
        } else {
            Err(DecodeError::InvalidSignature)
        }
    }
}

impl<'a> MessageBuffer<&'a mut [u8]> {
    /// A window onto `bytes`, if they pass the bounds check.
    pub fn new(bytes: &'a mut [u8]) -> (buffer: Result<Self, DecodeError>)
        ensures
            match buffer {
                Ok(b) => spec_check(old(bytes)@) is Ok && b.inner@ == old(bytes)@ && final(b.inner)@ == final(bytes)@,
                Err(e) => spec_check(old(bytes)@) == Err::<(), DecodeError>(e) && final(bytes)@
                    == old(bytes)@,
            },
    {
        let buffer = MessageBuffer { inner: bytes };
        match buffer.check_buffer_length() {
            Ok(()) => Ok(buffer),
            Err(e) => Err(e),
        }
    }

    /// Checks that the buffer holds a header and as many bytes as the
    /// header announces, and that it announces at least a header.
    pub fn check_buffer_length(&self) -> (checked: Result<(), DecodeError>)
        ensures
            checked == spec_check(old(self.inner)@),
            checked is Ok <==> spec_header_valid(old(self.inner)@),
    {
        let len = self.inner.len();
        if len < HEADER_LENGTH {
            return Err(DecodeError::BufferTooShort);
        }
        let expected_len = self.length() as usize;
        if expected_len < HEADER_LENGTH {
            return Err(DecodeError::LengthBelowHeader);
        }
        if len < expected_len {
            return Err(DecodeError::LengthBeyondBuffer);
        }
        Ok(())
    }

    /// The tag field.
    pub fn tag(&self) -> (tag: u8)
        requires
            self.inner@.len() >= HEADER_LENGTH,
        ensures
            tag == spec_tag(old(self.inner)@),
    {
        self.inner[TAG]
    }

    /// The length field.
    pub fn length(&self) -> (length: u32)
        requires
            self.inner@.len() >= HEADER_LENGTH,
        ensures
            length == spec_length(old(self.inner)@),
    {
        u32_from_be(self.inner, PARTICIPANT_PK_END)
    }

    /// Sets the tag field.
    pub fn set_tag(&mut self, value: u8)
        requires
            old(self).inner@.len() >= HEADER_LENGTH,
        ensures
            final(self).inner@ == old(self).inner@.update(TAG as int, value),
            final(final(self).inner)@ == final(old(self).inner)@,
    {
        self.inner[TAG] = value;
    }

    /// Sets the length field.
    pub fn set_length(&mut self, value: u32)
        requires
            old(self).inner@.len() >= HEADER_LENGTH,
        ensures
            final(self).inner@ == old(self).inner@.subrange(0, PARTICIPANT_PK_END as int)
                + spec_u32_to_be(value) + old(self).inner@.subrange(
                LENGTH_END as int,
                old(self).inner@.len() as int,
            ),
            final(final(self).inner)@ == final(old(self).inner)@,
    {
        let bytes = u32_to_be(value);
        copy_into(self.inner, PARTICIPANT_PK_END, bytes.as_slice());
    }

    /// The signature field, to be written.
    pub fn signature_mut(&mut self) -> (signature: &mut [u8])
        requires
            old(self).inner@.len() >= HEADER_LENGTH,
        ensures
            signature@ == spec_signature(old(self).inner@),
            final(self).inner@ == final(signature)@ + old(self).inner@.subrange(
                SIGNATURE_END as int,
                old(self).inner@.len() as int,
            ),
            final(final(self).inner)@ == final(old(self).inner)@,
    {
        let (signature, _rest) = self.inner.split_at_mut(SIGNATURE_END);
        signature
    }

    /// The participant public key field, to be written.
    pub fn participant_pk_mut(&mut self) -> (participant_pk: &mut [u8])
        requires
            old(self).inner@.len() >= HEADER_LENGTH,
        ensures
            participant_pk@ == spec_participant_pk(old(self).inner@),
            final(self).inner@ == old(self).inner@.subrange(0, SIGNATURE_END as int) + final(participant_pk)@ + old(self).inner@.subrange(
                PARTICIPANT_PK_END as int,
                old(self).inner@.len() as int,
            ),
            final(final(self).inner)@ == final(old(self).inner)@,
    {
        let (head, _rest) = self.inner.split_at_mut(PARTICIPANT_PK_END);
        let ghost head_before = head@;
        let (_signature, participant_pk) = head.split_at_mut(SIGNATURE_END);
        proof {
            assert(head_before.subrange(SIGNATURE_END as int, PARTICIPANT_PK_END as int)
                =~= old(self).inner@.subrange(SIGNATURE_END as int, PARTICIPANT_PK_END as int));
            assert(head_before.subrange(0, SIGNATURE_END as int) =~= old(self).inner@.subrange(
                0,
                SIGNATURE_END as int,
            ));
        }
        participant_pk
    }

    /// The rest of the buffer after the header, to be written.
    pub fn payload_mut(&mut self) -> (payload: &mut [u8])
        requires
            old(self).inner@.len() >= HEADER_LENGTH,
        ensures
            payload@ == spec_payload(old(self).inner@),
            final(self).inner@ == old(self).inner@.subrange(0, HEADER_LENGTH as int) + final(payload)@,
            final(final(self).inner)@ == final(old(self).inner)@,
    {
        let (_header, payload) = self.inner.split_at_mut(HEADER_LENGTH);
        payload
    }

    /// The part of the message that the signature covers, to be written.
    pub fn signed_data_mut(&mut self) -> (signed_data: &mut [u8])
        requires
            spec_header_valid(old(self).inner@),
        ensures
            signed_data@ == spec_signed_data(old(self).inner@),
            final(self).inner@ == old(self).inner@.subrange(0, SIGNATURE_END as int) + final(signed_data)@ + old(self).inner@.subrange(
                spec_length(old(self).inner@),
                old(self).inner@.len() as int,
            ),
            final(final(self).inner)@ == final(old(self).inner)@,
    {
        let end = self.length() as usize;
        let (head, _rest) = self.inner.split_at_mut(end);
        let ghost head_before = head@;
        let (_signature, signed_data) = head.split_at_mut(SIGNATURE_END);
        proof {
            assert(head_before.subrange(SIGNATURE_END as int, end as int) =~= old(
                self
            ).inner@.subrange(SIGNATURE_END as int, end as int));
            assert(head_before.subrange(0, SIGNATURE_END as int) =~= old(self).inner@.subrange(
                0,
                SIGNATURE_END as int,
            ));
        }
        signed_data
    }
}

} // verus!
