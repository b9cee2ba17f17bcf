use gateway::encoding::encode;
use gateway::signature::{
    conclude, SignatureError, Verifier, SIGNATURE_HEADER, TIMESTAMP_HEADER,
};
use ring::signature::{Ed25519KeyPair, KeyPair};

fn pair(seed: u8) -> Ed25519KeyPair {
    Ed25519KeyPair::from_seed_unchecked(&[seed; 32]).unwrap()
}

fn sign(pair: &Ed25519KeyPair, timestamp: &[u8], payload: &[u8]) -> Vec<u8> {
    let mut message = timestamp.to_vec();
    message.extend_from_slice(payload);
    pair.sign(&message).as_ref().to_vec()
}

#[test]
fn valid_request_verifies() {
    for seed in [1u8, 7, 200] {
        let pair = pair(seed);
        let verifier = Verifier::new(pair.public_key().as_ref().to_vec());
        let payload = b"{\"type\":1}";
        let timestamp = b"1656000000";
        let signature = encode(&sign(&pair, timestamp, payload));
        assert_eq!(verifier.verify(payload, timestamp, &signature), Ok(()));
    }
}

#[test]
fn known_answer_verifies() {
    let key = gateway::encoding::decode(
        b"d75a980182b10ab7d54bfed3c964073a0ee172f3daa62325af021a68f707511a",
    )
    .unwrap();
    let signature = b"e5564300c360ac729086e2cc806e828a84877f1eb8e5d974d873e06522490155\
5fb8821590a33bacc61e39701cf9b46bd25bf5f0595bbe24655141438e7a100b";
    let verifier = Verifier::new(key);
    assert_eq!(verifier.verify(b"", b"", signature), Ok(()));
    assert_eq!(verifier.verify(b"x", b"", signature), Err(SignatureError::Invalid));
}

#[test]
fn message_is_timestamp_then_payload() {
    let pair = pair(3);
    let verifier = Verifier::new(pair.public_key().as_ref().to_vec());
    let signature = encode(&sign(&pair, b"12", b"34"));
    assert_eq!(verifier.verify(b"34", b"12", &signature), Ok(()));
    assert_eq!(verifier.verify(b"12", b"34", &signature), Err(SignatureError::Invalid));
}

#[test]
fn flipped_payload_bit_is_rejected() {
    let pair = pair(5);
    let verifier = Verifier::new(pair.public_key().as_ref().to_vec());
    let payload = b"hello, world".to_vec();
    let timestamp = b"1700000000";
    let signature = encode(&sign(&pair, timestamp, &payload));
    for i in 0..payload.len() {
        for bit in 0..8 {
            let mut tampered = payload.clone();
            tampered[i] ^= 1 << bit;
            assert_eq!(
                verifier.verify(&tampered, timestamp, &signature),
                Err(SignatureError::Invalid)
            );
        }
    }
}

#[test]
fn flipped_timestamp_bit_is_rejected() {
    let pair = pair(5);
    let verifier = Verifier::new(pair.public_key().as_ref().to_vec());
    let payload = b"hello, world";
    let timestamp = b"1700000000".to_vec();
    let signature = encode(&sign(&pair, &timestamp, payload));
    for i in 0..timestamp.len() {
        for bit in 0..8 {
            let mut tampered = timestamp.clone();
            tampered[i] ^= 1 << bit;
            assert_eq!(
                verifier.verify(payload, &tampered, &signature),
                Err(SignatureError::Invalid)
            );
        }
    }
}

#[test]
fn flipped_signature_bit_is_rejected() {
    let pair = pair(9);
    let verifier = Verifier::new(pair.public_key().as_ref().to_vec());
    let payload = b"hello, world";
    let timestamp = b"1700000000";
    let signature = sign(&pair, timestamp, payload);
    assert!(verifier.accepts(payload, timestamp, &signature));
    for i in 0..signature.len() {
        for bit in 0..8 {
            let mut tampered = signature.clone();
            tampered[i] ^= 1 << bit;
            assert!(!verifier.accepts(payload, timestamp, &tampered));
            assert_eq!(
                verifier.verify(payload, timestamp, &encode(&tampered)),
                Err(SignatureError::Invalid)
            );
        }
    }
}

#[test]
fn case_of_signature_digits_does_not_matter() {
    let pair = pair(11);
    let verifier = Verifier::new(pair.public_key().as_ref().to_vec());
    let signature = encode(&sign(&pair, b"1", b"2"));
    let upper = signature.to_ascii_uppercase();
    assert_eq!(verifier.verify(b"2", b"1", &upper), Ok(()));
}

#[test]
fn signature_of_another_key_is_rejected() {
    let signer = pair(1);
    let other = pair(2);
    let verifier = Verifier::new(other.public_key().as_ref().to_vec());
    let signature = encode(&sign(&signer, b"1", b"2"));
    assert_eq!(verifier.verify(b"2", b"1", &signature), Err(SignatureError::Invalid));
}

#[test]
fn text_that_is_not_hexadecimal_is_malformed() {
    let pair = pair(1);
    let verifier = Verifier::new(pair.public_key().as_ref().to_vec());
    assert_eq!(verifier.verify(b"2", b"1", b"not hex"), Err(SignatureError::Malformed));
    assert_eq!(verifier.verify(b"2", b"1", b"abc"), Err(SignatureError::Malformed));
    let mut signature = encode(&sign(&pair, b"1", b"2"));
    signature[17] = b'g';
    assert_eq!(verifier.verify(b"2", b"1", &signature), Err(SignatureError::Malformed));
}

#[test]
fn signature_of_wrong_length_is_invalid() {
    let pair = pair(1);
    let verifier = Verifier::new(pair.public_key().as_ref().to_vec());
    assert_eq!(verifier.verify(b"2", b"1", b""), Err(SignatureError::Invalid));
    assert_eq!(verifier.verify(b"2", b"1", b"abcd"), Err(SignatureError::Invalid));
    let mut long = encode(&sign(&pair, b"1", b"2"));
    long.extend_from_slice(b"00");
    assert_eq!(verifier.verify(b"2", b"1", &long), Err(SignatureError::Invalid));
}

#[test]
fn key_of_wrong_length_accepts_nothing() {
    let pair = pair(1);
    let signature = encode(&sign(&pair, b"1", b"2"));
    let mut key = pair.public_key().as_ref().to_vec();
    key.pop();
    assert_eq!(Verifier::new(key).verify(b"2", b"1", &signature), Err(SignatureError::Invalid));
    assert_eq!(
        Verifier::new(Vec::new()).verify(b"2", b"1", &signature),
        Err(SignatureError::Invalid)
    );
}

#[test]
fn missing_header_is_malformed() {
    let pair = pair(4);
    let verifier = Verifier::new(pair.public_key().as_ref().to_vec());
    let signature = encode(&sign(&pair, b"1", b"2"));
    assert_eq!(verifier.verify_headers(b"2", Some(b"1"), Some(&signature)), Ok(()));
    assert_eq!(
        verifier.verify_headers(b"2", None, Some(&signature)),
        Err(SignatureError::Malformed)
    );
    assert_eq!(verifier.verify_headers(b"2", Some(b"1"), None), Err(SignatureError::Malformed));
    assert_eq!(verifier.verify_headers(b"2", None, None), Err(SignatureError::Malformed));
    assert_eq!(
        verifier.verify_headers(b"3", Some(b"1"), Some(&signature)),
        Err(SignatureError::Invalid)
    );
    assert_eq!(
        verifier.verify_headers(b"2", Some(b"1"), Some(b"xyz")),
        Err(SignatureError::Malformed)
    );
}

#[test]
fn malformed_wins_over_invalid() {
    assert_eq!(conclude(false, false), Err(SignatureError::Malformed));
    assert_eq!(conclude(false, true), Err(SignatureError::Malformed));
    assert_eq!(conclude(true, false), Err(SignatureError::Invalid));
    assert_eq!(conclude(true, true), Ok(()));
}

#[test]
fn headers_have_their_names() {
    assert_eq!(SIGNATURE_HEADER, "X-Signature-Ed25519");
    assert_eq!(TIMESTAMP_HEADER, "X-Signature-Timestamp");
}
