use enclave_envelope::codec::{decode, encode, Canonical};
use enclave_envelope::intent::{IntentMessage, HEADER_LEN};
use enclave_envelope::random::{RandomResponse, RANDOM_RESPONSE_LEN};
use enclave_envelope::scope::IntentScope;

fn hex(bytes: &[u8]) -> String {
    let mut text = String::new();
    for byte in bytes {
        text.push_str(&format!("{:02x}", byte));
    }
    text
}

fn sample_message() -> IntentMessage<RandomResponse> {
    let payload = RandomResponse { random_number: 42, min: 1, max: 100 };
    IntentMessage::new(payload, 1744038900000, IntentScope::ProcessData)
}

#[test]
fn test_serde() {
    let payload = RandomResponse { random_number: 42, min: 1, max: 100 };
    let timestamp = 1744038900000;
    let intent_msg = IntentMessage::new(payload, timestamp, IntentScope::ProcessData);
    let signing_payload = encode(&intent_msg);

    println!("Serialized: {}", hex(&signing_payload));
    assert!(!signing_payload.is_empty());
}

#[test]
fn intent_message_new_keeps_its_arguments() {
    let msg = sample_message();
    assert_eq!(msg.intent, IntentScope::ProcessData);
    assert_eq!(msg.timestamp_ms, 1744038900000);
    assert_eq!(msg.data, RandomResponse { random_number: 42, min: 1, max: 100 });
}

#[test]
fn intent_message_encodes_to_the_expected_bytes() {
    let bytes = encode(&sample_message());
    assert_eq!(
        hex(&bytes),
        "00\
         20b1d11096010000\
         2a00000000000000\
         0100000000000000\
         6400000000000000"
    );
    assert_eq!(bytes.len(), HEADER_LEN + RANDOM_RESPONSE_LEN);
}

#[test]
fn intent_message_encoding_agrees_with_bcs() {
    let bytes = encode(&sample_message());
    let expected = bcs::to_bytes(&(0u8, 1744038900000u64, 42u64, 1u64, 100u64)).unwrap();
    assert_eq!(bytes, expected);
}

#[test]
fn u64_encodes_least_significant_byte_first() {
    assert_eq!(encode(&0x0102030405060708u64), vec![8, 7, 6, 5, 4, 3, 2, 1]);
    assert_eq!(encode(&0u64), vec![0; 8]);
    assert_eq!(encode(&u64::MAX), vec![0xff; 8]);
}

#[test]
fn u64_round_trip() {
    for value in [0u64, 1, 255, 256, 1744038900000, u64::MAX - 1, u64::MAX] {
        assert_eq!(decode::<u64>(&encode(&value)), Some(value));
    }
}

#[test]
fn u64_decode_refuses_other_lengths() {
    assert_eq!(decode::<u64>(&[]), None);
    assert_eq!(decode::<u64>(&[0; 7]), None);
    assert_eq!(decode::<u64>(&[0; 9]), None);
    assert_eq!(decode::<u64>(&[1, 0, 0, 0, 0, 0, 0, 0]), Some(1));
}

#[test]
fn encode_into_appends() {
    let mut out = vec![0xaa, 0xbb];
    7u64.encode_into(&mut out);
    assert_eq!(out, vec![0xaa, 0xbb, 7, 0, 0, 0, 0, 0, 0, 0]);
    let payload = RandomResponse { random_number: 3, min: 2, max: 4 };
    let mut out = vec![0xcc];
    payload.encode_into(&mut out);
    assert_eq!(out.len(), 1 + RANDOM_RESPONSE_LEN);
    assert_eq!(out[0], 0xcc);
    assert_eq!(&out[1..], encode(&payload).as_slice());
}

#[test]
fn random_response_round_trip() {
    let payload = RandomResponse { random_number: 42, min: 1, max: 100 };
    let bytes = encode(&payload);
    assert_eq!(bytes.len(), 24);
    assert_eq!(decode::<RandomResponse>(&bytes), Some(payload));
    assert_eq!(RandomResponse::decode(&bytes), Some(payload));
}

#[test]
fn random_response_fields_are_encoded_in_order() {
    let payload = RandomResponse { random_number: 0x11, min: 0x22, max: 0x33 };
    let bytes = encode(&payload);
    assert_eq!(bytes[0], 0x11);
    assert_eq!(bytes[8], 0x22);
    assert_eq!(bytes[16], 0x33);
    let swapped = RandomResponse { random_number: 0x22, min: 0x11, max: 0x33 };
    assert_ne!(encode(&swapped), bytes);
}

#[test]
fn random_response_decode_refuses_other_lengths() {
    assert_eq!(decode::<RandomResponse>(&[]), None);
    assert_eq!(decode::<RandomResponse>(&[0; 23]), None);
    assert_eq!(decode::<RandomResponse>(&[0; 25]), None);
    assert_eq!(
        decode::<RandomResponse>(&[0; 24]),
        Some(RandomResponse { random_number: 0, min: 0, max: 0 })
    );
}

#[test]
fn intent_message_round_trip() {
    let cases = [
        (0u64, 0u64, 0u64, 0u64),
        (42, 1, 100, 1744038900000),
        (u64::MAX, 0, u64::MAX, u64::MAX),
        (7, 7, 8, 1),
    ];
    for (random_number, min, max, timestamp_ms) in cases {
        let msg = IntentMessage::new(
            RandomResponse { random_number, min, max },
            timestamp_ms,
            IntentScope::ProcessData,
        );
        let bytes = encode(&msg);
        assert_eq!(decode::<IntentMessage<RandomResponse>>(&bytes), Some(msg));
    }
}

#[test]
fn nested_intent_message_round_trip() {
    let outer = IntentMessage::new(sample_message(), 5, IntentScope::ProcessData);
    let bytes = encode(&outer);
    assert_eq!(bytes.len(), 2 * HEADER_LEN + RANDOM_RESPONSE_LEN);
    assert_eq!(decode::<IntentMessage<IntentMessage<RandomResponse>>>(&bytes), Some(outer));
}

#[test]
fn encoding_is_deterministic() {
    let first = encode(&sample_message());
    let second = encode(&sample_message());
    assert_eq!(first, second);
    let copy = sample_message().clone();
    assert_eq!(encode(&copy), first);
}

#[test]
fn different_messages_encode_differently() {
    let base = encode(&sample_message());
    let mut later = sample_message();
    later.timestamp_ms += 1;
    assert_ne!(encode(&later), base);
    let mut other = sample_message();
    other.data.random_number = 43;
    assert_ne!(encode(&other), base);
}

#[test]
fn intent_message_decode_refuses_truncated_input() {
    let bytes = encode(&sample_message());
    for len in 0..bytes.len() {
        assert_eq!(decode::<IntentMessage<RandomResponse>>(&bytes[..len]), None);
    }
}

#[test]
fn intent_message_decode_refuses_trailing_bytes() {
    let mut bytes = encode(&sample_message());
    bytes.push(0);
    assert_eq!(decode::<IntentMessage<RandomResponse>>(&bytes), None);
}

#[test]
fn intent_message_decode_refuses_unknown_scope_tag() {
    let mut bytes = encode(&sample_message());
    for tag in 1..=255u8 {
        bytes[0] = tag;
        assert_eq!(decode::<IntentMessage<RandomResponse>>(&bytes), None);
    }
    bytes[0] = 0;
    assert_eq!(decode::<IntentMessage<RandomResponse>>(&bytes), Some(sample_message()));
}

#[test]
fn changed_byte_decodes_to_another_message() {
    let message = sample_message();
    let bytes = encode(&message);
    for at in 0..bytes.len() {
        let mut changed = bytes.clone();
        changed[at] ^= 0x01;
        assert_ne!(decode::<IntentMessage<RandomResponse>>(&changed), Some(message.clone()));
    }
}

#[test]
fn scope_tags() {
    assert_eq!(IntentScope::ProcessData.tag(), 0);
    assert_eq!(IntentScope::from_tag(0), Some(IntentScope::ProcessData));
    assert_eq!(IntentScope::from_tag(1), None);
    assert_eq!(IntentScope::from_tag(255), None);
}
