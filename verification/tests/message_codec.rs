use pet_participant::crypto::{
    PublicEncryptKey, PublicSigningKey, SecretSigningKey, Signature, SigningKeyPair,
};
use pet_participant::dict::LocalSeedDict;
use pet_participant::mask::{EncryptedMaskSeed, MaskObject};
use pet_participant::message::{
    Chunk, DecodeError, Message, MessageBuffer, Payload, Sum, Sum2, Tag, Update, HEADER_LENGTH,
};

fn hex(text: &str) -> Vec<u8> {
    (0..text.len() / 2)
        .map(|i| u8::from_str_radix(&text[2 * i..2 * i + 2], 16).unwrap())
        .collect()
}

fn known_keys() -> SigningKeyPair {
    let seed = hex("9d61b19deffd5a60ba844af492ec2cc44449c5697b326919703bac031cae7f60");
    let public = hex("d75a980182b10ab7d54bfed3c964073a0ee172f3daa62325af021a68f707511a");
    let mut secret = seed;
    secret.extend(public.clone());
    SigningKeyPair {
        public: PublicSigningKey::from_slice(&public).unwrap(),
        secret: SecretSigningKey::from_slice(&secret).unwrap(),
    }
}

fn sum_payload() -> Sum {
    Sum {
        sum_signature: Signature { bytes: [0x99; 64] },
        ephm_pk: PublicEncryptKey { bytes: [0xdd; 32] },
    }
}

fn sum_bytes() -> Vec<u8> {
    let mut bytes = vec![0x99; 64];
    bytes.extend(vec![0xdd; 32]);
    bytes
}

fn header(signature: u8, pk: u8, length: u32, tag: u8) -> Vec<u8> {
    let mut bytes = vec![signature; 64];
    bytes.extend(vec![pk; 32]);
    bytes.extend(length.to_be_bytes());
    bytes.push(tag);
    bytes.extend([0, 0, 0]);
    bytes
}

fn sum_message_bytes() -> Vec<u8> {
    let mut bytes = header(0x0a, 0xbb, 200, 1);
    bytes.extend(sum_bytes());
    bytes
}

fn seed_dict() -> LocalSeedDict {
    let mut dict = LocalSeedDict::new();
    dict.insert(
        PublicSigningKey { bytes: [1; 32] },
        EncryptedMaskSeed { bytes: [0x11; 80] },
    );
    dict.insert(
        PublicSigningKey { bytes: [2; 32] },
        EncryptedMaskSeed { bytes: [0x22; 80] },
    );
    dict
}

fn update_payload() -> Update {
    Update {
        sum_signature: Signature { bytes: [0x01; 64] },
        update_signature: Signature { bytes: [0x02; 64] },
        masked_model: MaskObject { bytes: vec![0xa0, 0xa1, 0xa2] },
        local_seed_dict: seed_dict(),
    }
}

fn update_bytes() -> Vec<u8> {
    let mut bytes = vec![0x01; 64];
    bytes.extend(vec![0x02; 64]);
    bytes.extend([0, 0, 0, 7, 0xa0, 0xa1, 0xa2]);
    bytes.extend([0, 0, 0, 228]);
    bytes.extend(vec![1; 32]);
    bytes.extend(vec![0x11; 80]);
    bytes.extend(vec![2; 32]);
    bytes.extend(vec![0x22; 80]);
    bytes
}

#[test]
fn tag_bytes() {
    assert_eq!(u8::from(Tag::Sum), 1);
    assert_eq!(u8::from(Tag::Update), 2);
    assert_eq!(u8::from(Tag::Sum2), 3);
    assert_eq!(u8::from(Tag::Chunk), 4);
    assert_eq!(Tag::try_from(1), Ok(Tag::Sum));
    assert_eq!(Tag::try_from(2), Ok(Tag::Update));
    assert_eq!(Tag::try_from(3), Ok(Tag::Sum2));
    assert_eq!(Tag::try_from(4), Ok(Tag::Chunk));
    assert_eq!(Tag::try_from(0), Err(DecodeError::InvalidTag));
    assert_eq!(Tag::try_from(5), Err(DecodeError::InvalidTag));
}

#[test]
fn header_length_is_104() {
    assert_eq!(HEADER_LENGTH, 104);
}

#[test]
fn buffer_shorter_than_a_header_is_refused() {
    let bytes = vec![0u8; 103];
    assert_eq!(
        MessageBuffer::<&[u8]>::new(&bytes).err(),
        Some(DecodeError::BufferTooShort)
    );
    assert_eq!(Message::from_bytes(&bytes), Err(DecodeError::BufferTooShort));
}

#[test]
fn length_field_below_a_header_is_refused() {
    let bytes = header(0, 0, 103, 1);
    assert_eq!(
        MessageBuffer::<&[u8]>::new(&bytes).err(),
        Some(DecodeError::LengthBelowHeader)
    );
    assert_eq!(
        Message::from_bytes(&bytes),
        Err(DecodeError::LengthBelowHeader)
    );
}

#[test]
fn length_field_beyond_the_buffer_is_refused() {
    let mut bytes = header(0, 0, 201, 1);
    bytes.extend(sum_bytes());
    assert_eq!(
        MessageBuffer::<&[u8]>::new(&bytes).err(),
        Some(DecodeError::LengthBeyondBuffer)
    );
    assert_eq!(
        Message::from_bytes(&bytes),
        Err(DecodeError::LengthBeyondBuffer)
    );
}

#[test]
fn header_alone_passes_the_bounds_check() {
    let bytes = header(0, 0, 104, 1);
    let buffer = MessageBuffer::<&[u8]>::new(&bytes).unwrap();
    assert_eq!(buffer.length(), 104);
    assert_eq!(buffer.payload(), &[] as &[u8]);
    assert_eq!(buffer.signed_data().len(), 40);
}

#[test]
fn unknown_tag_is_refused() {
    let mut bytes = header(0, 0, 200, 9);
    bytes.extend(sum_bytes());
    assert_eq!(Message::from_bytes(&bytes), Err(DecodeError::InvalidTag));
}

#[test]
fn payload_of_the_wrong_shape_is_refused() {
    let mut bytes = header(0, 0, 199, 1);
    bytes.extend(&sum_bytes()[..95]);
    assert_eq!(Message::from_bytes(&bytes), Err(DecodeError::InvalidPayload));
}

#[test]
fn signed_data_ends_where_the_header_says() {
    let mut bytes = sum_message_bytes();
    bytes.extend([0xee; 10]);
    let buffer = MessageBuffer::<&[u8]>::new(&bytes).unwrap();
    assert_eq!(buffer.signed_data(), &bytes[64..200]);
    assert_eq!(buffer.payload(), &bytes[104..]);
}

#[test]
fn sum_message_is_read() {
    let bytes = sum_message_bytes();
    let message = Message::from_bytes(&bytes).unwrap();
    assert_eq!(message.signature, Some(Signature { bytes: [0x0a; 64] }));
    assert_eq!(message.participant_pk, PublicSigningKey { bytes: [0xbb; 32] });
    assert_eq!(message.payload, Payload::Sum(sum_payload()));
}

#[test]
fn sum_message_is_written() {
    let message = Message {
        signature: Some(Signature { bytes: [0x0a; 64] }),
        participant_pk: PublicSigningKey { bytes: [0xbb; 32] },
        payload: Payload::Sum(sum_payload()),
    };
    assert_eq!(message.buffer_length(), 200);
    let mut buffer = vec![0xff; 203];
    message.to_bytes(&mut buffer, &known_keys().secret);
    assert_eq!(&buffer[..200], sum_message_bytes().as_slice());
    assert_eq!(&buffer[200..], &[0xff; 3]);
}

#[test]
fn decoding_then_encoding_gives_the_same_bytes() {
    let keys = known_keys();
    let mut update = header(0x0c, 0xbb, 104 + update_bytes().len() as u32, 2);
    update.extend(update_bytes());
    let mut sum2 = header(0x0d, 0xbb, 104 + 64 + 6, 3);
    sum2.extend(vec![0x05; 64]);
    sum2.extend([0, 0, 0, 6, 8, 9]);
    let mut chunk = header(0x0e, 0xbb, 104 + 8 + 3, 4);
    chunk.extend([0, 2, 0x12, 0x34, 1, 0, 0, 0, 7, 7, 7]);
    for bytes in [sum_message_bytes(), update, sum2, chunk] {
        let message = Message::from_bytes(&bytes).unwrap();
        assert_eq!(message.to_vec(&keys.secret), bytes);
    }
}

#[test]
fn encoding_then_decoding_gives_the_same_message() {
    let keys = known_keys();
    let payloads = vec![
        Payload::Sum(sum_payload()),
        Payload::Update(update_payload()),
        Payload::Sum2(Sum2 {
            sum_signature: Signature { bytes: [0x05; 64] },
            model_mask: MaskObject { bytes: vec![8, 9] },
        }),
        Payload::Chunk(Chunk { id: 2, message_id: 0x1234, last: true, data: vec![7, 7, 7] }),
    ];
    for payload in payloads {
        let message = Message { signature: None, participant_pk: keys.public, payload };
        let bytes = message.to_vec(&keys.secret);
        let read = Message::from_bytes(&bytes).unwrap();
        assert_eq!(read.participant_pk, message.participant_pk);
        assert_eq!(read.payload, message.payload);
        assert_eq!(
            read.signature,
            Some(keys.secret.sign_detached(&bytes[64..]))
        );
    }
}

#[test]
fn update_payload_wire_form() {
    assert_eq!(update_payload().to_vec(), update_bytes());
    assert_eq!(update_payload().buffer_length(), update_bytes().len());
    assert_eq!(Update::from_bytes(&update_bytes()), Ok(update_payload()));
}

#[test]
fn update_payload_with_a_key_twice_is_refused() {
    let mut bytes = vec![0x01; 64];
    bytes.extend(vec![0x02; 64]);
    bytes.extend([0, 0, 0, 4]);
    bytes.extend([0, 0, 0, 228]);
    bytes.extend(vec![1; 32]);
    bytes.extend(vec![0x11; 80]);
    bytes.extend(vec![1; 32]);
    bytes.extend(vec![0x22; 80]);
    assert_eq!(Update::from_bytes(&bytes), Err(DecodeError::InvalidPayload));
}

#[test]
fn update_payload_with_a_broken_dictionary_is_refused() {
    let mut bytes = update_bytes();
    bytes.pop();
    assert_eq!(Update::from_bytes(&bytes), Err(DecodeError::InvalidPayload));
    let mut bytes = update_bytes();
    bytes.push(0);
    assert_eq!(Update::from_bytes(&bytes), Err(DecodeError::InvalidPayload));
    assert_eq!(
        Update::from_bytes(&update_bytes()[..127]),
        Err(DecodeError::InvalidPayload)
    );
}

#[test]
fn sum2_payload_wire_form() {
    let payload = Sum2 {
        sum_signature: Signature { bytes: [0x05; 64] },
        model_mask: MaskObject { bytes: vec![8, 9] },
    };
    let mut bytes = vec![0x05; 64];
    bytes.extend([0, 0, 0, 6, 8, 9]);
    assert_eq!(payload.to_vec(), bytes);
    assert_eq!(Sum2::from_bytes(&bytes), Ok(payload));
    bytes.push(1);
    assert_eq!(Sum2::from_bytes(&bytes), Err(DecodeError::InvalidPayload));
}

#[test]
fn chunk_wire_form() {
    let chunk = Chunk { id: 0x0102, message_id: 0xa0b0, last: false, data: vec![1, 2, 3] };
    let bytes = vec![0x01, 0x02, 0xa0, 0xb0, 0, 0, 0, 0, 1, 2, 3];
    assert_eq!(chunk.to_vec(), bytes);
    assert_eq!(Chunk::from_bytes(&bytes), Ok(chunk));
    let last = vec![0x01, 0x02, 0xa0, 0xb0, 1, 0, 0, 0];
    assert_eq!(
        Chunk::from_bytes(&last),
        Ok(Chunk { id: 0x0102, message_id: 0xa0b0, last: true, data: vec![] })
    );
    let flags = vec![0x01, 0x02, 0xa0, 0xb0, 2, 0, 0, 0];
    assert_eq!(Chunk::from_bytes(&flags), Err(DecodeError::InvalidPayload));
    let reserved = vec![0x01, 0x02, 0xa0, 0xb0, 0, 0, 1, 0];
    assert_eq!(Chunk::from_bytes(&reserved), Err(DecodeError::InvalidPayload));
    assert_eq!(Chunk::from_bytes(&bytes[..7]), Err(DecodeError::InvalidPayload));
}

#[test]
fn a_message_without_signature_is_signed() {
    let keys = known_keys();
    let message = Message {
        signature: None,
        participant_pk: keys.public,
        payload: Payload::Sum(sum_payload()),
    };
    let bytes = message.to_vec(&keys.secret);
    assert_eq!(bytes.len(), 200);
    assert_eq!(&bytes[64..96], keys.public.as_slice());
    assert_eq!(&bytes[96..100], &[0, 0, 0, 200]);
    assert_eq!(&bytes[100..104], &[1, 0, 0, 0]);
    assert_eq!(&bytes[104..], sum_bytes().as_slice());
    assert_eq!(
        &bytes[..64],
        keys.secret.sign_detached(&bytes[64..]).as_slice()
    );
    let buffer = MessageBuffer::<&[u8]>::new(&bytes).unwrap();
    assert_eq!(buffer.check_signature(), Ok(()));
}

#[test]
fn one_flipped_byte_fails_the_signature_check() {
    let keys = known_keys();
    let message = Message {
        signature: None,
        participant_pk: keys.public,
        payload: Payload::Sum(sum_payload()),
    };
    let bytes = message.to_vec(&keys.secret);
    for i in 0..bytes.len() {
        let mut changed = bytes.clone();
        changed[i] ^= 0x01;
        match MessageBuffer::<&[u8]>::new(&changed) {
            Ok(buffer) => assert_eq!(
                buffer.check_signature(),
                Err(DecodeError::InvalidSignature),
                "byte {}",
                i
            ),
            // a flip in the length field may leave no valid header at all
            Err(_) => assert!((96..100).contains(&i)),
        }
    }
}

#[test]
fn writer_sets_the_fields() {
    let mut bytes = vec![0u8; 110];
    let mut writer = MessageBuffer::<&mut [u8]>::new_unchecked(&mut bytes);
    writer.set_length(110);
    writer.set_tag(3);
    writer.signature_mut().copy_from_slice(&[1; 64]);
    writer.participant_pk_mut().copy_from_slice(&[2; 32]);
    writer.payload_mut().copy_from_slice(&[3; 6]);
    assert_eq!(writer.tag(), 3);
    assert_eq!(writer.length(), 110);
    assert_eq!(writer.check_buffer_length(), Ok(()));
    writer.signed_data_mut()[0] = 9;
    let mut expected = vec![1u8; 64];
    expected.push(9);
    expected.extend([2; 31]);
    expected.extend([0, 0, 0, 110, 3, 0, 0, 0]);
    expected.extend([3; 6]);
    assert_eq!(bytes, expected);
}

#[test]
fn checked_writer_wants_a_valid_header() {
    let mut bytes = vec![0u8; 110];
    assert_eq!(
        MessageBuffer::<&mut [u8]>::new(&mut bytes).err(),
        Some(DecodeError::LengthBelowHeader)
    );
    bytes[99] = 110;
    assert!(MessageBuffer::<&mut [u8]>::new(&mut bytes).is_ok());
}

#[test]
fn a_message_that_was_read_can_be_written() {
    let keys = known_keys();
    let mut bytes = header(0x0c, 0xbb, 104 + update_bytes().len() as u32, 2);
    bytes.extend(update_bytes());
    let message = Message::from_bytes(&bytes).unwrap();
    assert!(message.payload.fits());
    let mut out = vec![0u8; message.buffer_length()];
    message.to_bytes(&mut out, &keys.secret);
    assert_eq!(out, bytes);
}
