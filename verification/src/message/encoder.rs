//! From one payload to the packets that carry it.
//!
//! A payload that fits under the maximum payload size goes out as one
//! signed message with its own tag. A longer one is cut into chunks: each
//! chunk is a signed message of its own, tagged as a chunk, that carries
//! its index, the id of the message it belongs to, whether it is the last
//! one, and its slice of the payload. The slices, put end to end in the
//! order of their indices, are the payload.

use vstd::prelude::*;
use crate::bytes::{append, slice_to_vec};
use crate::crypto::{detached_signature, random_bytes, SigningKeyPair};
use crate::message::buffer::HEADER_LENGTH;
use crate::message::message::{
    lemma_written_message_reads_back, message_body, spec_body, spec_reads_as,
    spec_signed_message, Tag,
};
use crate::message::payload::{
    spec_chunk_bytes, Chunk, Payload, CHUNK_OVERHEAD,
};

verus! {

/// The most chunks one message can be cut into: as many as a chunk index
/// can count.
pub const MAX_CHUNKS: usize = 0x1_0000;

/// The longest payload of a packet that, once it is sealed, still has a
/// length that four bytes can give: sealing adds 48 bytes.
pub const MAX_SEALED_LENGTH: usize = 0xffff_ffff - 104 - 48;

/// Why a payload cannot be encoded.
#[derive(Clone, Copy, Debug, PartialEq, Eq)]
pub enum InvalidEncodingInput {
    /// The payload is itself a chunk.
    Payload,
    /// The sizes cannot be met: the payload is too long for one message
    /// and cannot be cut into chunks under the maximum payload size.
    PayloadSize,
}

/// What an encoder holds.
pub struct EncoderView {
    /// The keys that sign the packets.
    pub keys: SigningKeyPair,
    /// The tag of the payload.
    pub tag: Tag,
    /// The payload in its wire form.
    pub payload: Seq<u8>,
    /// The most bytes that the payload of one packet may have; 0 for no
    /// limit.
    pub max_payload_size: usize,
    /// The id that the chunks share.
    pub message_id: u16,
}

/// How many chunks of `size` bytes `length` bytes take.
pub open spec fn spec_chunk_count(length: int, size: int) -> int
    recommends
        size > 0,
{
    length / size + if length % size == 0 {
        0int
    } else {
        1int
    }
}

impl EncoderView {
    /// Whether the payload goes out in chunks.
    pub open spec fn multipart(self) -> bool {
        self.max_payload_size != 0 && self.payload.len() > self.max_payload_size
    }

    /// How many bytes of the payload one chunk carries at most.
    pub open spec fn chunk_size(self) -> int {
        self.max_payload_size - CHUNK_OVERHEAD
    }

    /// How many packets the payload goes out in.
    pub open spec fn count(self) -> int {
        if self.multipart() {
            spec_chunk_count(self.payload.len() as int, self.chunk_size())
        } else {
            1
        }
    }

    /// The slice of the payload that chunk `index` carries.
    pub open spec fn chunk_data(self, index: int) -> Seq<u8> {
        let start = index * self.chunk_size();
        let end = if start + self.chunk_size() < self.payload.len() {
            start + self.chunk_size()
        } else {
            self.payload.len() as int
        };
        self.payload.subrange(start, end)
    }

    /// The payload of packet `index`: the whole payload, or chunk `index`
    /// with its index, the message id and the mark on the last chunk.
    pub open spec fn packet_payload(self, index: int) -> Seq<u8> {
        if self.multipart() {
            spec_chunk_bytes(
                index as u16,
                self.message_id,
                index == self.count() - 1,
                self.chunk_data(index),
            )
        } else {
            self.payload
        }
    }

    /// The tag of every packet.
    pub open spec fn packet_tag(self) -> Tag {
        if self.multipart() {
            Tag::Chunk
        } else {
            self.tag
        }
    }

    /// Packet `index`, signed.
    pub open spec fn packet(self, index: int) -> Seq<u8> {
        spec_signed_message(
            self.keys.secret.bytes@,
            self.keys.public.bytes@,
            self.packet_tag().spec_byte(),
            self.packet_payload(index),
        )
    }

    /// The slices of the first `count` chunks, end to end.
    pub open spec fn reassembled(self, count: int) -> Seq<u8>
        decreases count,
    {
        if count <= 0 {
            Seq::<u8>::empty()
        } else {
            self.reassembled(count - 1) + self.chunk_data(count - 1)
        }
    }

    /// What every encoder satisfies: its payload is no chunk, every packet
    /// has a length that the header can give, and the chunks can be
    /// counted by a chunk index.
    pub open spec fn valid(self) -> bool {
        spec_sizes_valid(self.tag, self.payload.len() as int, self.max_payload_size)
    }
}

/// Whether a payload of `length` bytes under the tag `tag` can go out
/// under the maximum payload size: it is no chunk, every packet has a
/// length that the header can give, and the chunks, if it is cut, can be
/// counted by a chunk index.
pub open spec fn spec_sizes_valid(tag: Tag, length: int, max_payload_size: usize) -> bool {
    &&& tag != Tag::Chunk
    &&& length <= MAX_SEALED_LENGTH
    &&& (max_payload_size != 0 && length > max_payload_size) ==> {
        &&& CHUNK_OVERHEAD < max_payload_size <= MAX_SEALED_LENGTH
        &&& spec_chunk_count(length, max_payload_size - CHUNK_OVERHEAD) <= MAX_CHUNKS
    }
}

/// Where the chunks of `size` bytes of `length` bytes end: all but the
/// last are full, and the last one ends the payload.
pub proof fn lemma_chunk_bounds(length: int, size: int)
    requires
        length > 0,
        size > 0,
    ensures
        spec_chunk_count(length, size) >= 1,
        (spec_chunk_count(length, size) - 1) * size < length,
        length <= spec_chunk_count(length, size) * size,
{
    let q = length / size;
    let r = length % size;
    assert(length == q * size + r && 0 <= r < size && q >= 0) by (nonlinear_arith)
        requires
            length > 0,
            size > 0,
            q == length / size,
            r == length % size,
    ;
    if r == 0 {
        assert(q >= 1) by (nonlinear_arith)
            requires
                length == q * size,
                length > 0,
                size > 0,
                q >= 0,
        ;
        assert((q - 1) * size < q * size) by (nonlinear_arith)
            requires
                size > 0,
        ;
    } else {
        assert((q + 1) * size == q * size + size) by (nonlinear_arith);
    }
}

/// A chunk before the given one ends where the given one starts or
/// earlier.
pub proof fn lemma_chunk_step(index: int, bound: int, size: int)
    requires
        0 <= index < bound,
        size > 0,
    ensures
        0 <= index * size,
        (index + 1) * size == index * size + size,
        (index + 1) * size <= bound * size,
{
    assert(0 <= index * size) by (nonlinear_arith)
        requires
            0 <= index,
            size > 0,
    ;
    assert((index + 1) * size == index * size + size) by (nonlinear_arith);
    assert((index + 1) * size <= bound * size) by (nonlinear_arith)
        requires
            index + 1 <= bound,
            size > 0,
    ;
}

/// Reassembly: the slices of all the chunks of a message, end to end in
/// the order of their indices, are the payload, byte for byte.
pub proof fn lemma_chunks_reassemble(encoder: EncoderView)
    requires
        encoder.valid(),
        encoder.multipart(),
    ensures
        encoder.reassembled(encoder.count()) == encoder.payload,
{
    let size = encoder.chunk_size();
    let length = encoder.payload.len() as int;
    lemma_chunk_bounds(length, size);
    lemma_reassembled_prefix(encoder, encoder.count() - 1);
    let last = encoder.count() - 1;
    lemma_chunk_step(last, encoder.count(), size);
    assert(encoder.reassembled(encoder.count()) =~= encoder.payload);
}

/// The slices of the first `count` chunks, none of them the last, are the
/// first `count` times the chunk size bytes of the payload.
pub proof fn lemma_reassembled_prefix(encoder: EncoderView, count: int)
    requires
        encoder.valid(),
        encoder.multipart(),
        0 <= count < encoder.count(),
    ensures
        count * encoder.chunk_size() < encoder.payload.len(),
        encoder.reassembled(count) == encoder.payload.subrange(0, count * encoder.chunk_size()),
    decreases count,
{
    let size = encoder.chunk_size();
    let length = encoder.payload.len() as int;
    lemma_chunk_bounds(length, size);
    if count == 0 {
        assert(0 * size == 0);
        assert(encoder.reassembled(0) =~= encoder.payload.subrange(0, 0));
    } else {
        lemma_reassembled_prefix(encoder, count - 1);
        lemma_chunk_step(count - 1, encoder.count() - 1, size);
        assert(encoder.reassembled(count) =~= encoder.payload.subrange(0, count * size));
    }
}

/// Why a payload cannot be encoded, or `None` if it can: it is a chunk;
/// or it is too long for a message that is sealed; or it would have to
/// be cut and the
/// maximum payload size leaves no room for data in a chunk, or is itself
/// too long for a message, or the chunks would be more than a chunk index
/// can count.
pub open spec fn spec_encoding_error(
    is_chunk: bool,
    fits: bool,
    length: int,
    max_payload_size: usize,
) -> Option<InvalidEncodingInput> {
    if is_chunk {
        Some(InvalidEncodingInput::Payload)
    } else if !fits || length > MAX_SEALED_LENGTH {
        Some(InvalidEncodingInput::PayloadSize)
    } else if max_payload_size != 0 && length > max_payload_size && (max_payload_size
        <= CHUNK_OVERHEAD || max_payload_size > MAX_SEALED_LENGTH || spec_chunk_count(
        length,
        max_payload_size - CHUNK_OVERHEAD,
    ) > MAX_CHUNKS) {
        Some(InvalidEncodingInput::PayloadSize)
    } else {
        None
    }
}

/// Encodes one payload as one or several signed packets.
#[derive(Debug, PartialEq, Eq)]
pub struct MessageEncoder {
    keys: SigningKeyPair,
    tag: Tag,
    payload: Vec<u8>,
    max_payload_size: usize,
    message_id: u16,
}

impl View for MessageEncoder {
    type V = EncoderView;

    closed spec fn view(&self) -> EncoderView {
        EncoderView {
            keys: self.keys,
            tag: self.tag,
            payload: self.payload@,
            max_payload_size: self.max_payload_size,
            message_id: self.message_id,
        }
    }
}

/// How many chunks of `size` bytes `length` bytes take.
pub fn chunk_count(length: usize, size: usize) -> (count: usize)
    requires
        size > 0,
    ensures
        count == spec_chunk_count(length as int, size as int),
{
    let full = length / size;
    if length % size == 0 {
        full
    } else {
        assert(full < length) by (nonlinear_arith)
            requires
                full == length / size,
                length % size != 0,
                size > 0,
                length >= 0,
        ;
        full + 1
    }
}

/// Whether a payload of `length` bytes under the tag `tag` can go out
/// under the maximum payload size.
pub fn sizes_valid(tag: Tag, length: usize, max_payload_size: usize) -> (valid: bool)
    ensures
        valid == spec_sizes_valid(tag, length as int, max_payload_size),
{
    let is_chunk = match tag {
        Tag::Chunk => true,
        _ => false,
    };
    if is_chunk || length > MAX_SEALED_LENGTH {
        return false;
    }
    if max_payload_size != 0 && length > max_payload_size {
        if max_payload_size <= CHUNK_OVERHEAD || max_payload_size > MAX_SEALED_LENGTH {
            return false;
        }
        chunk_count(length, max_payload_size - CHUNK_OVERHEAD) <= MAX_CHUNKS
    } else {
        true
    }
}

impl MessageEncoder {
    #[verifier::type_invariant]
    closed spec fn is_valid(&self) -> bool {
        self@.valid()
    }

    /// What `with_message_id` answers for a payload and a size.
    pub open spec fn spec_input_error(
        payload: Payload,
        max_payload_size: usize,
    ) -> Option<InvalidEncodingInput> {
        spec_encoding_error(
            payload is Chunk,
            payload.spec_fits(),
            payload.spec_bytes().len() as int,
            max_payload_size,
        )
    }

    /// The tag that a payload which is no chunk goes out under.
    pub open spec fn spec_tag_of(payload: Payload) -> Tag {
        match payload {
            Payload::Sum(_) => Tag::Sum,
            Payload::Update(_) => Tag::Update,
            Payload::Sum2(_) => Tag::Sum2,
            Payload::Chunk(_) => Tag::Chunk,
        }
    }

    /// An encoder for `payload`, whose chunks, if there are any, carry
    /// the id `message_id`.
    ///
    /// A payload that is itself a chunk is refused. So is one too long
    /// for a message, and one that would have to be cut but cannot be:
    /// the maximum payload size leaves no room for data in a chunk, or is
    /// itself too long for a message, or the chunks would be more than a
    /// chunk index can count. A maximum payload size of 0 sets no limit.
    pub fn with_message_id(
        keys: SigningKeyPair,
        payload: Payload,
        max_payload_size: usize,
        message_id: u16,
    ) -> (encoder: Result<Self, InvalidEncodingInput>)
        ensures
            match encoder {
                Ok(e) => Self::spec_input_error(payload, max_payload_size) is None && e@ == (
                EncoderView {
                    keys,
                    tag: Self::spec_tag_of(payload),
                    payload: payload.spec_bytes(),
                    max_payload_size,
                    message_id,
                }) && e@.valid(),
                Err(e) => Self::spec_input_error(payload, max_payload_size) == Some(e),
            },
    {
        if payload.is_chunk() {
            return Err(InvalidEncodingInput::Payload);
        }
        if !payload.fits() {
            return Err(InvalidEncodingInput::PayloadSize);
        }
        let tag = Tag::of(&payload);
        let bytes = payload.to_vec();
        let ghost view = EncoderView {
            keys,
            tag,
            payload: bytes@,
            max_payload_size,
            message_id,
        };
        let length = payload.buffer_length();
        if !sizes_valid(tag, length, max_payload_size) {
            assert(!view.valid());
            return Err(InvalidEncodingInput::PayloadSize);
        }
        assert(view.valid());
        Ok(MessageEncoder { keys, tag, payload: bytes, max_payload_size, message_id })
    }

    /// An encoder for `payload`, with a message id drawn at random. The
    /// rest is as `with_message_id` has it.
    pub fn new(keys: SigningKeyPair, payload: Payload, max_payload_size: usize) -> (encoder: Result<
        Self,
        InvalidEncodingInput,
    >)
        ensures
            match encoder {
                Ok(e) => Self::spec_input_error(payload, max_payload_size) is None && e@ == (
                EncoderView {
                    keys,
                    tag: Self::spec_tag_of(payload),
                    payload: payload.spec_bytes(),
                    max_payload_size,
                    message_id: e@.message_id,
                }) && e@.valid(),
                Err(e) => Self::spec_input_error(payload, max_payload_size) == Some(e),
            },
    {
        let random = random_bytes(2);
        let message_id = crate::bytes::u16_from_be(random.as_slice(), 0);
        Self::with_message_id(keys, payload, max_payload_size, message_id)
    }

    /// An encoder made of its parts, as they were taken from another one;
    /// `None` where the parts do not go together.
    pub fn from_parts(
        keys: SigningKeyPair,
        tag: Tag,
        payload: Vec<u8>,
        max_payload_size: usize,
        message_id: u16,
    ) -> (encoder: Option<Self>)
        ensures
            encoder is Some <==> (EncoderView {
                keys,
                tag,
                payload: payload@,
                max_payload_size,
                message_id,
            }).valid(),
            encoder is Some ==> encoder.unwrap()@ == (EncoderView {
                keys,
                tag,
                payload: payload@,
                max_payload_size,
                message_id,
            }),
    {
        if !sizes_valid(tag, payload.len(), max_payload_size) {
            return None;
        }
        Some(MessageEncoder { keys, tag, payload, max_payload_size, message_id })
    }

    /// The keys that sign the packets.
    pub fn keys(&self) -> (keys: SigningKeyPair)
        ensures
            keys == self@.keys,
    {
        self.keys
    }

    /// The tag of the payload.
    pub fn tag(&self) -> (tag: Tag)
        ensures
            tag == self@.tag,
    {
        self.tag
    }

    /// The payload in its wire form.
    pub fn payload(&self) -> (payload: &[u8])
        ensures
            payload@ == self@.payload,
    {
        self.payload.as_slice()
    }

    /// The most bytes that the payload of one packet may have.
    pub fn max_payload_size(&self) -> (size: usize)
        ensures
            size == self@.max_payload_size,
    {
        self.max_payload_size
    }

    /// The id that the chunks share.
    pub fn message_id(&self) -> (id: u16)
        ensures
            id == self@.message_id,
    {
        self.message_id
    }

    /// Number of packets. Every encoder is valid.
    pub fn len(&self) -> (count: usize)
        ensures
            count == self@.count(),
            count >= 1,
            self@.valid(),
    {
        proof {
            use_type_invariant(self);
        }
        if self.max_payload_size != 0 && self.payload.len() > self.max_payload_size {
            proof {
                lemma_chunk_bounds(self.payload@.len() as int, self@.chunk_size());
            }
            chunk_count(self.payload.len(), self.max_payload_size - CHUNK_OVERHEAD)
        } else {
            1
        }
    }

    /// Packet `index`, signed and ready to be sealed.
    pub fn packet(&self, index: usize) -> (packet: Vec<u8>)
        requires
            index < self@.count(),
        ensures
            packet@ == self@.packet(index as int),
            packet@.len() == HEADER_LENGTH + self@.packet_payload(index as int).len(),
            packet@.len() <= HEADER_LENGTH + MAX_SEALED_LENGTH,
            spec_reads_as(
                packet@,
                detached_signature(
                    self@.keys.secret.bytes@,
                    spec_body(
                        self@.keys.public.bytes@,
                        self@.packet_tag().spec_byte(),
                        self@.packet_payload(index as int),
                    ),
                ),
                self@.keys.public.bytes@,
                self@.packet_tag().spec_byte(),
                self@.packet_payload(index as int),
            ),
    {
        proof {
            use_type_invariant(self);
        }
        let length = self.payload.len();
        if self.max_payload_size != 0 && length > self.max_payload_size {
            let size = self.max_payload_size - CHUNK_OVERHEAD;
            let count = chunk_count(length, size);
            proof {
                lemma_chunk_bounds(length as int, size as int);
                lemma_chunk_step(index as int, count as int, size as int);
                if index < count - 1 {
                    lemma_chunk_step(index as int, count - 1, size as int);
                }
                assert(index * size <= (count - 1) * size) by (nonlinear_arith)
                    requires
                        index <= count - 1,
                        size > 0,
                ;
            }
            let start = index * size;
            let end = if length - start > size {
                start + size
            } else {
                length
            };
            let last = index == count - 1;
            let chunk = Chunk {
                id: index as u16,
                message_id: self.message_id,
                last,
                data: slice_to_vec(self.payload.as_slice(), start, end),
            };
            let data = chunk.to_vec();
            assert(data@ =~= self@.packet_payload(index as int));
            signed_message(&self.keys, Tag::Chunk, data.as_slice())
        } else {
            signed_message(&self.keys, self.tag, self.payload.as_slice())
        }
    }

    /// All the packets, in the order in which they go out.
    pub fn packets(&self) -> (packets: Vec<Vec<u8>>)
        ensures
            packets@.len() == self@.count(),
            forall|i: int| 0 <= i < packets@.len() ==> (#[trigger] packets@[i])@ == self@.packet(i),
    {
        let count = self.len();
        let mut packets: Vec<Vec<u8>> = Vec::new();
        let mut i: usize = 0;
        while i < count
            invariant
                i <= count,
                count == self@.count(),
                packets@.len() == i,
                forall|k: int| 0 <= k < i ==> (#[trigger] packets@[k])@ == self@.packet(k),
            decreases count - i,
        {
            let packet = self.packet(i);
            packets.push(packet);
            i += 1;
        }
        packets
    }
}

impl Clone for MessageEncoder {
    /// An encoder that holds the same.
    fn clone(&self) -> (copy: Self)
        ensures
            copy@ == self@,
    {
        proof {
            use_type_invariant(self);
        }
        let payload = slice_to_vec(self.payload.as_slice(), 0, self.payload.len());
        assert(payload@ =~= self.payload@);
        MessageEncoder {
            keys: self.keys,
            tag: self.tag,
            payload,
            max_payload_size: self.max_payload_size,
            message_id: self.message_id,
        }
    }
}

/// The message that `keys` make of a tag and a payload in its wire form:
/// the signature over everything after it, then everything after it.
pub fn signed_message(keys: &SigningKeyPair, tag: Tag, payload: &[u8]) -> (message: Vec<u8>)
    requires
        HEADER_LENGTH + payload@.len() <= u32::MAX,
    ensures
        message@ == spec_signed_message(
            keys.secret.bytes@,
            keys.public.bytes@,
            tag.spec_byte(),
            payload@,
        ),
        message@.len() == HEADER_LENGTH + payload@.len(),
        spec_reads_as(
            message@,
            detached_signature(
                keys.secret.bytes@,
                spec_body(keys.public.bytes@, tag.spec_byte(), payload@),
            ),
            keys.public.bytes@,
            tag.spec_byte(),
            payload@,
        ),
{
    let body = message_body(&keys.public, tag, payload);
    let signature = keys.secret.sign_detached(body.as_slice());
    let mut message: Vec<u8> = Vec::new();
    append(&mut message, signature.bytes.as_slice());
    append(&mut message, body.as_slice());
    proof {
        lemma_written_message_reads_back(
            signature.bytes@,
            keys.public.bytes@,
            tag.spec_byte(),
            payload@,
        );
    }
    message
}

} // verus!
