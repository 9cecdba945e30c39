use pet_participant::crypto::{
    PublicEncryptKey, PublicSigningKey, SecretSigningKey, Signature, SigningKeyPair,
};
use pet_participant::dict::LocalSeedDict;
use pet_participant::mask::MaskObject;
use pet_participant::message::encoder::chunk_count;
use pet_participant::message::{
    Chunk, InvalidEncodingInput, Message, MessageBuffer, MessageEncoder, Payload, Sum, Sum2, Tag,
    Update,
};

fn hex(text: &str) -> Vec<u8> {
    (0..text.len() / 2)
        .map(|i| u8::from_str_radix(&text[2 * i..2 * i + 2], 16).unwrap())
        .collect()
}

fn known_keys() -> SigningKeyPair {
    let seed = hex("9d61b19deffd5a60ba844af492ec2cc44449c5697b326919703bac031cae7f60");
    let public = hex("d75a980182b10ab7d54bfed3c964073a0ee172f3daa62325af021a68f707511a");
    let mut secret = seed;
    secret.extend(public.clone());
    SigningKeyPair {
        public: PublicSigningKey::from_slice(&public).unwrap(),
        secret: SecretSigningKey::from_slice(&secret).unwrap(),
    }
}

fn sum_payload() -> Payload {
    Payload::Sum(Sum {
        sum_signature: Signature { bytes: [0x99; 64] },
        ephm_pk: PublicEncryptKey { bytes: [0xdd; 32] },
    })
}

fn long_payload(mask: usize) -> Payload {
    let bytes: Vec<u8> = (0..mask).map(|i| (i % 251) as u8).collect();
    Payload::Sum2(Sum2 {
        sum_signature: Signature { bytes: [0x05; 64] },
        model_mask: MaskObject { bytes },
    })
}

fn chunks_of(encoder: &MessageEncoder) -> Vec<Chunk> {
    encoder
        .packets()
        .iter()
        .map(|packet| {
            let buffer = MessageBuffer::<&[u8]>::new(packet).unwrap();
            assert_eq!(buffer.tag(), 4);
            assert_eq!(buffer.length() as usize, packet.len());
            assert_eq!(buffer.check_signature(), Ok(()));
            match Message::from_bytes(packet).unwrap().payload {
                Payload::Chunk(chunk) => chunk,
                other => panic!("not a chunk: {:?}", other),
            }
        })
        .collect()
}

#[test]
fn chunk_counts() {
    assert_eq!(chunk_count(0, 10), 0);
    assert_eq!(chunk_count(1, 10), 1);
    assert_eq!(chunk_count(10, 10), 1);
    assert_eq!(chunk_count(11, 10), 2);
    assert_eq!(chunk_count(1068, 248), 5);
    assert_eq!(chunk_count(992, 248), 4);
}

#[test]
fn short_payload_goes_out_as_one_message() {
    let keys = known_keys();
    let encoder = MessageEncoder::with_message_id(keys, sum_payload(), 256, 7).unwrap();
    assert_eq!(encoder.len(), 1);
    assert_eq!(encoder.tag(), Tag::Sum);
    assert_eq!(encoder.message_id(), 7);
    assert_eq!(encoder.max_payload_size(), 256);
    let packets = encoder.packets();
    assert_eq!(packets.len(), 1);
    let expected = Message { signature: None, participant_pk: keys.public, payload: sum_payload() }
        .to_vec(&keys.secret);
    assert_eq!(packets[0], expected);
    assert_eq!(encoder.packet(0), expected);
}

#[test]
fn payload_of_exactly_the_maximum_is_not_cut() {
    let keys = known_keys();
    let encoder = MessageEncoder::with_message_id(keys, sum_payload(), 96, 7).unwrap();
    assert_eq!(encoder.len(), 1);
    let encoder = MessageEncoder::with_message_id(keys, sum_payload(), 95, 7).unwrap();
    assert_eq!(encoder.len(), 2);
}

#[test]
fn no_limit_means_one_message() {
    let keys = known_keys();
    let encoder = MessageEncoder::with_message_id(keys, long_payload(100_000), 0, 7).unwrap();
    assert_eq!(encoder.len(), 1);
    assert_eq!(encoder.packets()[0].len(), 104 + 68 + 100_000);
}

#[test]
fn long_payload_is_cut_into_chunks() {
    let keys = known_keys();
    let payload = long_payload(1000);
    let bytes = payload.to_vec();
    assert_eq!(bytes.len(), 1068);
    let encoder = MessageEncoder::with_message_id(keys, payload, 256, 0xbeef).unwrap();
    assert_eq!(encoder.len(), 5);
    let packets = encoder.packets();
    assert_eq!(packets.len(), 5);
    for packet in &packets {
        assert!(packet.len() - 104 <= 256);
    }
    let chunks = chunks_of(&encoder);
    let mut reassembled = Vec::new();
    for (index, chunk) in chunks.iter().enumerate() {
        assert_eq!(chunk.id as usize, index);
        assert_eq!(chunk.message_id, 0xbeef);
        assert_eq!(chunk.last, index == 4);
        assert_eq!(chunk.data.len(), if index == 4 { 1068 - 4 * 248 } else { 248 });
        reassembled.extend(chunk.data.clone());
    }
    assert_eq!(reassembled, bytes);
}

#[test]
fn payload_that_fills_its_chunks_has_no_empty_chunk() {
    let keys = known_keys();
    let payload = long_payload(992 - 68);
    let bytes = payload.to_vec();
    let encoder = MessageEncoder::with_message_id(keys, payload, 256, 1).unwrap();
    let chunks = chunks_of(&encoder);
    assert_eq!(chunks.len(), 4);
    assert!(chunks.iter().all(|chunk| chunk.data.len() == 248));
    assert!(chunks[3].last);
    assert!(!chunks[2].last);
    let reassembled: Vec<u8> = chunks.iter().flat_map(|chunk| chunk.data.clone()).collect();
    assert_eq!(reassembled, bytes);
}

#[test]
fn update_payload_is_cut_and_reassembled() {
    let keys = known_keys();
    let payload = Payload::Update(Update {
        sum_signature: Signature { bytes: [0x01; 64] },
        update_signature: Signature { bytes: [0x02; 64] },
        masked_model: MaskObject { bytes: vec![0x5a; 300] },
        local_seed_dict: LocalSeedDict::new(),
    });
    let bytes = payload.to_vec();
    let encoder = MessageEncoder::new(keys, payload, 256).unwrap();
    let chunks = chunks_of(&encoder);
    assert_eq!(chunks.len(), 2);
    assert!(chunks.iter().all(|chunk| chunk.message_id == encoder.message_id()));
    let reassembled: Vec<u8> = chunks.iter().flat_map(|chunk| chunk.data.clone()).collect();
    assert_eq!(reassembled, bytes);
    let whole = Update::from_bytes(&reassembled).unwrap();
    assert_eq!(whole.masked_model.bytes, vec![0x5a; 300]);
}

#[test]
fn chunk_payload_is_refused() {
    let keys = known_keys();
    let payload =
        Payload::Chunk(Chunk { id: 0, message_id: 0, last: true, data: vec![1, 2, 3] });
    assert_eq!(
        MessageEncoder::with_message_id(keys, payload.clone(), 256, 0).err(),
        Some(InvalidEncodingInput::Payload)
    );
    assert_eq!(
        MessageEncoder::new(keys, payload, 0).err(),
        Some(InvalidEncodingInput::Payload)
    );
}

#[test]
fn maximum_without_room_for_data_is_refused() {
    let keys = known_keys();
    for max in 1..=8 {
        assert_eq!(
            MessageEncoder::with_message_id(keys, sum_payload(), max, 0).err(),
            Some(InvalidEncodingInput::PayloadSize)
        );
    }
    let encoder = MessageEncoder::with_message_id(keys, sum_payload(), 9, 0).unwrap();
    assert_eq!(encoder.len(), 96);
}

#[test]
fn more_chunks_than_an_index_counts_are_refused() {
    let keys = known_keys();
    assert_eq!(
        MessageEncoder::with_message_id(keys, long_payload(65536 - 68 + 1), 9, 0).err(),
        Some(InvalidEncodingInput::PayloadSize)
    );
    let encoder =
        MessageEncoder::with_message_id(keys, long_payload(65536 - 68), 9, 0).unwrap();
    assert_eq!(encoder.len(), 65536);
    let last = encoder.packet(65535);
    match Message::from_bytes(&last).unwrap().payload {
        Payload::Chunk(chunk) => {
            assert_eq!(chunk.id, 65535);
            assert!(chunk.last);
        }
        other => panic!("not a chunk: {:?}", other),
    }
}

#[test]
fn parts_make_the_same_encoder() {
    let keys = known_keys();
    let encoder = MessageEncoder::with_message_id(keys, long_payload(1000), 256, 3).unwrap();
    let copy = MessageEncoder::from_parts(
        encoder.keys(),
        encoder.tag(),
        encoder.payload().to_vec(),
        encoder.max_payload_size(),
        encoder.message_id(),
    )
    .unwrap();
    assert_eq!(copy, encoder);
    assert_eq!(copy.packets(), encoder.packets());
    assert_eq!(encoder.clone(), encoder);
    assert!(MessageEncoder::from_parts(keys, Tag::Chunk, vec![1], 0, 0).is_none());
    assert!(MessageEncoder::from_parts(keys, Tag::Sum, vec![1; 20], 5, 0).is_none());
}
