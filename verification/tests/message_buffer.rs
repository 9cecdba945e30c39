use pet_participant::message::{MessageBuffer, Tag, HEADER_LENGTH};

fn signature() -> Vec<u8> {
    vec![0xaa; 64]
}

fn participant_pk() -> Vec<u8> {
    vec![0xbb; 32]
}

fn sum_bytes() -> Vec<u8> {
    let mut bytes = vec![0x99; 64];
    bytes.extend(vec![0xdd; 32]);
    bytes
}

fn message() -> Vec<u8> {
    let mut buf = signature();
    buf.extend(participant_pk());
    let length = sum_bytes().len() + HEADER_LENGTH;
    buf.extend(&(length as u32).to_be_bytes());
    buf.push(Tag::Sum.into());
    buf.extend(vec![0, 0, 0]);
    buf.extend(sum_bytes());
    buf
}

#[test]
fn buffer_read() {
    let bytes = message();
    let buffer = MessageBuffer::<&[u8]>::new(&bytes).unwrap();
    assert_eq!(Tag::try_from(buffer.tag()).unwrap(), Tag::Sum);
    assert_eq!(buffer.signature(), signature().as_slice());
    assert_eq!(buffer.participant_pk(), participant_pk().as_slice());
    assert_eq!(buffer.length() as usize, bytes.len());
    assert_eq!(buffer.payload(), sum_bytes().as_slice());
}

#[test]
fn buffer_write() {
    let expected = message();
    let mut bytes = vec![0; expected.len()];
    let mut buffer = MessageBuffer::<&mut [u8]>::new_unchecked(&mut bytes);

    buffer
        .signature_mut()
        .copy_from_slice(signature().as_slice());
    buffer
        .participant_pk_mut()
        .copy_from_slice(participant_pk().as_slice());
    buffer.set_tag(Tag::Sum.into());
    buffer.set_length(expected.len() as u32);
    buffer
        .payload_mut()
        .copy_from_slice(sum_bytes().as_slice());
    assert_eq!(bytes, expected);
}
