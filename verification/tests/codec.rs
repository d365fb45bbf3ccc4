use money_transfer::codec::{EncryptionCodec, OpenFailure, Payload};
use std::collections::HashMap;

fn json_payload(body: &str) -> Payload {
    Payload {
        metadata: vec![("encoding".to_string(), b"json/plain".to_vec())],
        data: body.as_bytes().to_vec(),
        external_payload_sizes: vec![],
    }
}

fn metadata(p: &Payload) -> HashMap<String, Vec<u8>> {
    p.metadata.iter().cloned().collect()
}

#[test]
fn encoded_payloads_are_marked_and_hide_their_data() {
    let plain = json_payload("{\"amount\":42}");
    let sealed = EncryptionCodec::encode(vec![plain.clone()]).unwrap();
    assert_eq!(sealed.len(), 1);
    let md = metadata(&sealed[0]);
    assert_eq!(md.get("encoding").unwrap(), b"binary/encrypted");
    assert_eq!(md.get("encryption-key-id").unwrap(), b"test");
    assert_eq!(md.len(), 2);
    assert!(sealed[0].external_payload_sizes.is_empty());
    assert!(sealed[0].data.len() > 12 + 16);
    let body = plain.data.as_slice();
    assert!(!sealed[0].data.windows(body.len()).any(|w| w == body));
}

#[test]
fn decode_gives_back_what_encode_was_given() {
    let inputs = vec![
        json_payload("{\"amount\":42}"),
        Payload {
            metadata: vec![("a".to_string(), vec![1, 2]), ("b".to_string(), vec![])],
            data: vec![],
            external_payload_sizes: vec![7, 9],
        },
    ];
    let sealed = EncryptionCodec::encode(inputs.clone()).unwrap();
    let opened = EncryptionCodec::decode(sealed).unwrap();
    assert_eq!(opened.len(), 2);
    for (o, p) in opened.iter().zip(inputs.iter()) {
        assert_eq!(metadata(o), metadata(p));
        assert_eq!(o.data, p.data);
        assert_eq!(o.external_payload_sizes, p.external_payload_sizes);
    }
}

#[test]
fn each_encoding_uses_a_fresh_nonce() {
    let p = json_payload("same");
    let a = EncryptionCodec::encode_payload(p.clone());
    let b = EncryptionCodec::encode_payload(p);
    assert_ne!(a.data[..12], b.data[..12]);
}

#[test]
fn unencrypted_payloads_pass_through() {
    let p = json_payload("plain");
    let out = EncryptionCodec::decode_payload(p.clone());
    assert_eq!(out.data, p.data);
    assert_eq!(metadata(&out), metadata(&p));
}

#[test]
fn tampered_ciphertext_is_refused() {
    let mut sealed = EncryptionCodec::encode_payload(json_payload("secret"));
    let last = sealed.data.len() - 1;
    sealed.data[last] ^= 1;
    assert_eq!(EncryptionCodec::check_opens(&sealed), Err(OpenFailure::DecryptionFailed));
    assert_eq!(EncryptionCodec::decode(vec![sealed]).unwrap_err(), OpenFailure::DecryptionFailed);
}

#[test]
fn encrypted_payload_without_nonce_is_refused() {
    let p = Payload {
        metadata: vec![("encoding".to_string(), b"binary/encrypted".to_vec())],
        data: vec![1, 2, 3],
        external_payload_sizes: vec![],
    };
    assert_eq!(EncryptionCodec::check_opens(&p), Err(OpenFailure::MissingNonce));
}

#[test]
fn later_metadata_entries_win() {
    let p = Payload {
        metadata: vec![
            ("encoding".to_string(), b"binary/encrypted".to_vec()),
            ("encoding".to_string(), b"json/plain".to_vec()),
        ],
        data: vec![1],
        external_payload_sizes: vec![],
    };
    assert_eq!(EncryptionCodec::check_opens(&p), Ok(()));
    assert_eq!(EncryptionCodec::decode_payload(p).data, vec![1]);
}

#[test]
fn encoded_len_counts_the_protobuf_bytes() {
    let p = Payload { metadata: vec![], data: vec![1, 2, 3], external_payload_sizes: vec![] };
    // field 2, length-delimited: tag, length, three bytes
    assert_eq!(EncryptionCodec::encoded_len(&p), 5);
    let sealed = EncryptionCodec::encode_payload(p);
    assert_eq!(sealed.data.len(), 12 + 5 + 16);
}
