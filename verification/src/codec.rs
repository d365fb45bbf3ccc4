//! AES-256-GCM payload codec: a payload is serialized, encrypted under a
//! fixed key with a fresh nonce, and sent as a payload whose metadata marks it
//! encrypted and whose data is the nonce followed by the ciphertext.
use vstd::prelude::*;
use vstd::pervasive::unreached;
use vstd::string::StringExecFns;

use aes_gcm::aead::{Aead, AeadCore, KeyInit, OsRng};
use aes_gcm::{Aes256Gcm, Key, Nonce};
use prost::Message;
use temporalio_common::protos::temporal::api::common::v1::payload::ExternalPayloadDetails;

verus! {

/// A Temporal payload: metadata entries, data, and the sizes of the payloads
/// stored elsewhere that it refers to. Where a metadata key occurs twice the
/// later entry counts.
#[derive(Clone, Debug)]
pub struct Payload {
    pub metadata: Vec<(String, Vec<u8>)>,
    pub data: Vec<u8>,
    pub external_payload_sizes: Vec<i64>,
}

/// What a payload means: its metadata as a map, its data, the external sizes.
pub struct PayloadModel {
    pub metadata: Map<Seq<char>, Seq<u8>>,
    pub data: Seq<u8>,
    pub external_payload_sizes: Seq<i64>,
}

/// The metadata map that a list of entries describes; a later entry for a
/// key replaces an earlier one.
pub open spec fn metadata_map(entries: Seq<(String, Vec<u8>)>) -> Map<Seq<char>, Seq<u8>>
    decreases entries.len(),
{
    if entries.len() == 0 {
        Map::empty()
    } else {
        metadata_map(entries.drop_last()).insert(entries.last().0@, entries.last().1@)
    }
}

impl View for Payload {
    type V = PayloadModel;

    open spec fn view(&self) -> PayloadModel {
        PayloadModel {
            metadata: metadata_map(self.metadata@),
            data: self.data@,
            external_payload_sizes: self.external_payload_sizes@,
        }
    }
}

/// The longest plaintext that AES-GCM encrypts (`aes_gcm::P_MAX`).
pub const AES_GCM_MAX_PLAINTEXT: u64 = 68719476736;

/// The length of an AES-GCM nonce.
pub const NONCE_LEN: usize = 12;

/// The length of an AES-GCM authentication tag.
pub const TAG_LEN: usize = 16;

/// The codec's key: the bytes of `sa-rocks!sa-rocks!sa-rocks!yeah!`.
pub open spec fn codec_key() -> Seq<u8> {
    seq![
        115u8, 97, 45, 114, 111, 99, 107, 115, 33, 115, 97, 45, 114, 111, 99, 107, 115, 33, 115,
        97, 45, 114, 111, 99, 107, 115, 33, 121, 101, 97, 104, 33,
    ]
}

/// The `encoding` metadata value of an encrypted payload: the bytes of
/// `binary/encrypted`.
pub open spec fn encrypted_encoding() -> Seq<u8> {
    seq![98u8, 105, 110, 97, 114, 121, 47, 101, 110, 99, 114, 121, 112, 116, 101, 100]
}

/// The `encryption-key-id` metadata value: the bytes of `test`.
pub open spec fn codec_key_id() -> Seq<u8> {
    seq![116u8, 101, 115, 116]
}

/// The metadata of an encrypted payload.
pub open spec fn sealed_metadata() -> Map<Seq<char>, Seq<u8>> {
    Map::empty().insert("encoding"@, encrypted_encoding()).insert(
        "encryption-key-id"@,
        codec_key_id(),
    )
}

/// The payload's metadata marks it encrypted by this codec.
pub open spec fn is_encrypted(p: PayloadModel) -> bool {
    p.metadata.contains_key("encoding"@) && p.metadata["encoding"@] == encrypted_encoding()
}

/// The AES-256-GCM ciphertext, tag appended, of `plaintext` under `key` and
/// `nonce` (`aes_gcm::Aes256Gcm::encrypt`).
pub uninterp spec fn aes256gcm_sealed(key: Seq<u8>, nonce: Seq<u8>, plaintext: Seq<u8>) -> Seq<u8>;

/// What AES-256-GCM decryption of `ciphertext` under `key` and `nonce`
/// gives: the plaintext, or nothing when the tag does not check
/// (`aes_gcm::Aes256Gcm::decrypt`).
pub uninterp spec fn aes256gcm_opened(key: Seq<u8>, nonce: Seq<u8>, ciphertext: Seq<u8>) -> Option<
    Seq<u8>,
>;

/// The length of the protobuf encoding of a payload (`prost::Message::encode_to_vec`).
pub uninterp spec fn payload_wire_len(payload: PayloadModel) -> nat;

/// The payload that protobuf bytes decode to, if they decode
/// (`prost::Message::decode`).
pub uninterp spec fn decoded_payload(bytes: Seq<u8>) -> Option<PayloadModel>;

/// What decoding an encoded payload gives: an unencrypted payload stays as
/// it is; an encrypted one is split into nonce and ciphertext, decrypted and
/// decoded, and gives nothing where any of these fails.
pub open spec fn opened_payload(p: PayloadModel) -> Option<PayloadModel> {
    if !is_encrypted(p) {
        Some(p)
    } else if p.data.len() < NONCE_LEN {
        None
    } else {
        match aes256gcm_opened(codec_key(), p.data.take(12), p.data.skip(12)) {
            Some(plaintext) => decoded_payload(plaintext),
            None => None,
        }
    }
}

/// Why an encrypted payload does not decode.
#[derive(Clone, Copy, Debug, PartialEq, Eq, Structural)]
pub enum OpenFailure {
    /// The data is shorter than a nonce.
    MissingNonce,
    /// The ciphertext does not decrypt under the codec's key.
    DecryptionFailed,
    /// The plaintext is not an encoded payload.
    NotAPayload,
}

/// Why the payload does not decode, if it does not.
pub open spec fn open_failure(p: PayloadModel) -> Option<OpenFailure> {
    if !is_encrypted(p) {
        None
    } else if p.data.len() < NONCE_LEN {
        Some(OpenFailure::MissingNonce)
    } else {
        match aes256gcm_opened(codec_key(), p.data.take(12), p.data.skip(12)) {
            Some(plaintext) => if decoded_payload(plaintext) is Some {
                None
            } else {
                Some(OpenFailure::NotAPayload)
            },
            None => Some(OpenFailure::DecryptionFailed),
        }
    }
}

/// `sealed` is `payload` encrypted: marked encrypted, its data a nonce
/// followed by the ciphertext of an encoding of `payload`, and no external
/// payloads.
pub open spec fn seals(sealed: PayloadModel, payload: PayloadModel) -> bool {
    &&& sealed.metadata == sealed_metadata()
    &&& sealed.external_payload_sizes.len() == 0
    &&& sealed.data.len() == NONCE_LEN + payload_wire_len(payload) + TAG_LEN
    &&& exists|plaintext: Seq<u8>|
        {
            &&& #[trigger] decoded_payload(plaintext) == Some(payload)
            &&& plaintext.len() == payload_wire_len(payload)
            &&& sealed.data == sealed.data.take(12) + aes256gcm_sealed(
                codec_key(),
                sealed.data.take(12),
                plaintext,
            )
        }
}

/// A payload counts as encrypted exactly when its `encoding` metadata is the
/// sixteen ASCII bytes of `binary/encrypted`; every other payload (another
/// encoding such as `binary/null` or `json/plain`, or none) decodes to itself
/// and never fails to decode.
pub proof fn lemma_only_binary_encrypted_payloads_are_opened(p: PayloadModel)
    ensures
        is_encrypted(p) <==> (p.metadata.contains_key("encoding"@) && p.metadata["encoding"@]
            == seq![98u8, 105, 110, 97, 114, 121, 47, 101, 110, 99, 114, 121, 112, 116, 101, 100]),
        !(p.metadata.contains_key("encoding"@) && p.metadata["encoding"@]
            == seq![98u8, 105, 110, 97, 114, 121, 47, 101, 110, 99, 114, 121, 112, 116, 101, 100])
            ==> opened_payload(p) == Some(p) && open_failure(p) is None,
{
    assert(encrypted_encoding() =~= seq![
        98u8, 105, 110, 97, 114, 121, 47, 101, 110, 99, 114, 121, 112, 116, 101, 100,
    ]);
}

/// Calls `Aes256Gcm::generate_nonce` with `OsRng`. Claimed: twelve bytes;
/// which bytes is chance.
#[verifier::external_body]
fn fresh_nonce() -> (nonce: Vec<u8>)
    ensures
        nonce@.len() == NONCE_LEN,
{
    Aes256Gcm::generate_nonce(&mut OsRng).to_vec()
}

/// Calls `Aes256Gcm::encrypt` under `key` with `nonce`. Claimed, as the
/// source shows: it fails exactly when the plaintext is longer than `P_MAX`;
/// otherwise the result is the ciphertext with the 16-byte tag appended, and
/// decrypting it under the same key and nonce gives the plaintext back.
#[verifier::external_body]
fn aes256gcm_encrypt(key: &[u8], nonce: &[u8], plaintext: &[u8]) -> (res: Option<Vec<u8>>)
    requires
        key@.len() == 32,
        nonce@.len() == NONCE_LEN,
    ensures
        res is Some <==> plaintext@.len() <= AES_GCM_MAX_PLAINTEXT,
        res matches Some(c) ==> {
            &&& c@ == aes256gcm_sealed(key@, nonce@, plaintext@)
            &&& c@.len() == plaintext@.len() + TAG_LEN
            &&& aes256gcm_opened(key@, nonce@, c@) == Some(plaintext@)
        },
{
    Aes256Gcm::new(Key::<Aes256Gcm>::from_slice(key)).encrypt(Nonce::from_slice(nonce), plaintext).ok()
}

/// Calls `Aes256Gcm::decrypt` under `key` with `nonce`; an error becomes
/// `None`.
#[verifier::external_body]
fn aes256gcm_decrypt(key: &[u8], nonce: &[u8], ciphertext: &[u8]) -> (res: Option<Vec<u8>>)
    requires
        key@.len() == 32,
        nonce@.len() == NONCE_LEN,
    ensures
        match res {
            Some(p) => aes256gcm_opened(key@, nonce@, ciphertext@) == Some(p@),
            None => aes256gcm_opened(key@, nonce@, ciphertext@) is None,
        },
{
    Aes256Gcm::new(Key::<Aes256Gcm>::from_slice(key)).decrypt(Nonce::from_slice(nonce), ciphertext).ok()
}

/// Calls `prost::Message::encode_to_vec` on the Temporal payload with the
/// same metadata (later entries replacing earlier ones), data and external
/// sizes. The bytes depend on the order in which the metadata map is walked,
/// so only their length is named; claimed: decoding them gives the payload
/// back.
#[verifier::external_body]
fn payload_to_wire(payload: &Payload) -> (bytes: Vec<u8>)
    ensures
        bytes@.len() == payload_wire_len(payload@),
        decoded_payload(bytes@) == Some(payload@),
{
    let mut proto = temporalio_common::protos::temporal::api::common::v1::Payload::default();
    proto.metadata = payload.metadata.iter().cloned().collect();
    proto.data = payload.data.clone();
    proto.external_payloads = payload.external_payload_sizes.iter().map(
        |s| ExternalPayloadDetails { size_bytes: *s },
    ).collect();
    proto.encode_to_vec()
}

/// Calls `prost::Message::decode` for a Temporal payload; an error becomes
/// `None`. The metadata entries come out in the order of the decoded map,
/// which is not stated; the map they describe is.
#[verifier::external_body]
fn payload_from_wire(bytes: &[u8]) -> (res: Option<Payload>)
    ensures
        match res {
            Some(p) => decoded_payload(bytes@) == Some(p@),
            None => decoded_payload(bytes@) is None,
        },
{
    temporalio_common::protos::temporal::api::common::v1::Payload::decode(bytes).ok().map(
        |p| Payload {
            metadata: p.metadata.into_iter().collect(),
            data: p.data,
            external_payload_sizes: p.external_payloads.iter().map(|d| d.size_bytes).collect(),
        },
    )
}

/// The codec's key.
fn key_bytes() -> (k: Vec<u8>)
    ensures
        k@ == codec_key(),
{
    let k: Vec<u8> = vec![
        115u8, 97, 45, 114, 111, 99, 107, 115, 33, 115, 97, 45, 114, 111, 99, 107, 115, 33, 115,
        97, 45, 114, 111, 99, 107, 115, 33, 121, 101, 97, 104, 33,
    ];
    assert(k@ =~= codec_key());
    k
}

/// The `encoding` value that marks a payload encrypted.
fn encrypted_encoding_bytes() -> (v: Vec<u8>)
    ensures
        v@ == encrypted_encoding(),
{
    let v: Vec<u8> = vec![98u8, 105, 110, 97, 114, 121, 47, 101, 110, 99, 114, 121, 112, 116, 101, 100];
    assert(v@ =~= encrypted_encoding());
    v
}

/// Two byte strings are equal.
fn bytes_equal(a: &Vec<u8>, b: &Vec<u8>) -> (eq: bool)
    ensures
        eq == (a@ == b@),
{
    if a.len() != b.len() {
        return false;
    }
    let mut i: usize = 0;
    while i < a.len()
        invariant
            a@.len() == b@.len(),
            i <= a@.len(),
            forall|j: int| 0 <= j < i ==> a@[j] == b@[j],
        decreases a@.len() - i,
    {
        if a[i] != b[i] {
            return false;
        }
        i = i + 1;
    }
    assert(a@ =~= b@);
    true
}

/// Entries past `i` do not mention `key`, so the map of the first `i`
/// entries agrees with the map of all of them on `key`.
proof fn lemma_metadata_map_prefix(entries: Seq<(String, Vec<u8>)>, i: int, key: Seq<char>)
    requires
        0 <= i <= entries.len(),
        forall|j: int| i <= j < entries.len() ==> #[trigger] entries[j].0@ != key,
    ensures
        metadata_map(entries).contains_key(key) == metadata_map(entries.take(i)).contains_key(key),
        metadata_map(entries).contains_key(key) ==> metadata_map(entries)[key] == metadata_map(
            entries.take(i),
        )[key],
    decreases entries.len() - i,
{
    if i < entries.len() {
        let shorter = entries.drop_last();
        assert(entries[entries.len() - 1].0@ != key);
        assert forall|j: int| i <= j < shorter.len() implies #[trigger] shorter[j].0@ != key by {
            assert(shorter[j] == entries[j]);
        }
        lemma_metadata_map_prefix(shorter, i, key);
        assert(shorter.take(i) =~= entries.take(i));
    } else {
        assert(entries.take(i) =~= entries);
    }
}

/// The value of `key` in the metadata, if any: the last entry for it.
fn metadata_value<'a>(entries: &'a Vec<(String, Vec<u8>)>, key: &String) -> (v: Option<&'a Vec<u8>>)
    ensures
        match v {
            Some(v) => metadata_map(entries@).contains_key(key@) && metadata_map(entries@)[key@]
                == v@,
            None => !metadata_map(entries@).contains_key(key@),
        },
{
    let mut i = entries.len();
    while i > 0
        invariant
            i <= entries@.len(),
            forall|j: int| i <= j < entries@.len() ==> #[trigger] entries@[j].0@ != key@,
        decreases i,
    {
        i = i - 1;
        if entries[i].0 == *key {
            proof {
                lemma_metadata_map_prefix(entries@, i + 1, key@);
                assert(entries@.take(i + 1).drop_last() =~= entries@.take(i as int));
            }
            return Some(&entries[i].1);
        }
    }
    proof {
        lemma_metadata_map_prefix(entries@, 0, key@);
        assert(entries@.take(0) =~= Seq::<(String, Vec<u8>)>::empty());
    }
    None
}

/// Whether the payload's metadata marks it encrypted by this codec.
fn encrypted(payload: &Payload) -> (b: bool)
    ensures
        b == is_encrypted(payload@),
{
    let key = String::from_str("encoding");
    match metadata_value(&payload.metadata, &key) {
        Some(v) => bytes_equal(v, &encrypted_encoding_bytes()),
        None => false,
    }
}

/// The codec of the money-transfer worker.
pub struct EncryptionCodec;

impl EncryptionCodec {
    /// Encrypts a payload: encodes it, encrypts the encoding under the
    /// codec's key with a fresh nonce, and marks the result encrypted.
    /// Decoding the result gives the payload back.
    pub fn encode_payload(payload: Payload) -> (sealed: Payload)
        requires
            payload_wire_len(payload@) <= AES_GCM_MAX_PLAINTEXT,
        ensures
            seals(sealed@, payload@),
            is_encrypted(sealed@),
            opened_payload(sealed@) == Some(payload@),
    {
        let plaintext = payload_to_wire(&payload);
        let nonce = fresh_nonce();
        let key = key_bytes();
        let ciphertext = match aes256gcm_encrypt(key.as_slice(), nonce.as_slice(), plaintext.as_slice()) {
            Some(c) => c,
            None => unreached(),
        };
        let ghost sealed_bytes = ciphertext@;
        let mut data = nonce.clone();
        let mut ciphertext = ciphertext;
        data.append(&mut ciphertext);
        let key_id: Vec<u8> = vec![116u8, 101, 115, 116];
        assert(key_id@ =~= codec_key_id());
        let mut metadata: Vec<(String, Vec<u8>)> = Vec::new();
        metadata.push((String::from_str("encoding"), encrypted_encoding_bytes()));
        metadata.push((String::from_str("encryption-key-id"), key_id));
        let sealed = Payload { metadata, data, external_payload_sizes: Vec::new() };
        proof {
            reveal_strlit("encoding");
            reveal_strlit("encryption-key-id");
            let entries = sealed.metadata@;
            assert("encoding"@.len() != "encryption-key-id"@.len());
            assert(entries.len() == 2);
            assert(entries.drop_last().last() == entries[0]);
            assert(entries[0].0@ == "encoding"@ && entries[0].1@ == encrypted_encoding());
            assert(entries.drop_last().drop_last() =~= Seq::<(String, Vec<u8>)>::empty());
            assert(metadata_map(entries.drop_last().drop_last()) == Map::<Seq<char>, Seq<u8>>::empty());
            assert(entries.drop_last().last().0@ == "encoding"@);
            assert(metadata_map(entries.drop_last()) =~= Map::empty().insert(
                "encoding"@,
                encrypted_encoding(),
            ));
            assert(metadata_map(sealed.metadata@) =~= sealed_metadata());
            assert("encoding"@ != "encryption-key-id"@);
            assert(sealed.data@.take(12) =~= nonce@);
            assert(sealed.data@.skip(12) =~= sealed_bytes);
            assert(sealed.data@ =~= sealed.data@.take(12) + aes256gcm_sealed(
                codec_key(),
                sealed.data@.take(12),
                plaintext@,
            ));
            assert(decoded_payload(plaintext@) == Some(payload@));
        }
        sealed
    }

    /// Checks that the payload decodes: it is not encrypted, or its nonce,
    /// ciphertext and encoding all check; else says which does not.
    pub fn check_opens(payload: &Payload) -> (r: Result<(), OpenFailure>)
        ensures
            match r {
                Ok(()) => open_failure(payload@) is None && opened_payload(payload@) is Some,
                Err(f) => open_failure(payload@) == Some(f) && opened_payload(payload@) is None,
            },
    {
        if !encrypted(payload) {
            return Ok(());
        }
        if payload.data.len() < NONCE_LEN {
            return Err(OpenFailure::MissingNonce);
        }
        let (nonce, ciphertext) = payload.data.as_slice().split_at(NONCE_LEN);
        let key = key_bytes();
        match aes256gcm_decrypt(key.as_slice(), nonce, ciphertext) {
            Some(plaintext) => if payload_from_wire(plaintext.as_slice()).is_some() {
                Ok(())
            } else {
                Err(OpenFailure::NotAPayload)
            },
            None => Err(OpenFailure::DecryptionFailed),
        }
    }

    /// Decrypts a payload that this codec encrypted; other payloads pass
    /// unchanged.
    pub fn decode_payload(payload: Payload) -> (opened: Payload)
        requires
            opened_payload(payload@) is Some,
        ensures
            opened@ == opened_payload(payload@)->0,
            !is_encrypted(payload@) ==> opened@ == payload@,
    {
        if !encrypted(&payload) {
            return payload;
        }
        let (nonce, ciphertext) = payload.data.as_slice().split_at(NONCE_LEN);
        let key = key_bytes();
        let plaintext = match aes256gcm_decrypt(key.as_slice(), nonce, ciphertext) {
            Some(p) => p,
            None => unreached(),
        };
        match payload_from_wire(plaintext.as_slice()) {
            Some(p) => p,
            None => unreached(),
        }
    }

    /// The length of the payload's encoding.
    pub fn encoded_len(payload: &Payload) -> (n: usize)
        ensures
            n == payload_wire_len(payload@),
    {
        payload_to_wire(payload).len()
    }

    /// Encrypts every payload; `None` when one of them is too long to
    /// encrypt.
    pub fn encode(payloads: Vec<Payload>) -> (sealed: Option<Vec<Payload>>)
        ensures
            sealed is Some <==> forall|i: int|
                0 <= i < payloads@.len() ==> payload_wire_len(#[trigger] payloads@[i]@)
                    <= AES_GCM_MAX_PLAINTEXT,
            sealed matches Some(s) ==> s@.len() == payloads@.len() && forall|i: int|
                0 <= i < payloads@.len() ==> seals(#[trigger] s@[i]@, payloads@[i]@)
                    && opened_payload(s@[i]@) == Some(payloads@[i]@),
    {
        let ghost inputs = payloads@;
        let mut out: Vec<Payload> = Vec::new();
        for p in it: payloads.into_iter()
            invariant
                it.seq() == inputs,
                out@.len() == it.index(),
                forall|j: int|
                    0 <= j < it.index() ==> payload_wire_len(#[trigger] inputs[j]@)
                        <= AES_GCM_MAX_PLAINTEXT,
                forall|j: int|
                    0 <= j < it.index() ==> seals(#[trigger] out@[j]@, inputs[j]@)
                        && opened_payload(out@[j]@) == Some(inputs[j]@),
        {
            if Self::encoded_len(&p) as u64 > AES_GCM_MAX_PLAINTEXT {
                return None;
            }
            out.push(Self::encode_payload(p));
        }
        Some(out)
    }

    /// Decrypts every payload that this codec encrypted and passes the others
    /// unchanged; fails with the first payload's reason that does not decode.
    pub fn decode(payloads: Vec<Payload>) -> (opened: Result<Vec<Payload>, OpenFailure>)
        ensures
            opened is Ok <==> forall|i: int|
                0 <= i < payloads@.len() ==> opened_payload(#[trigger] payloads@[i]@) is Some,
            opened matches Ok(o) ==> o@.len() == payloads@.len() && forall|i: int|
                0 <= i < payloads@.len() ==> #[trigger] o@[i]@ == opened_payload(
                    payloads@[i]@,
                )->0,
            opened matches Err(f) ==> exists|i: int|
                0 <= i < payloads@.len() && open_failure(#[trigger] payloads@[i]@) == Some(f) && forall|
                    j: int,
                | 0 <= j < i ==> opened_payload(#[trigger] payloads@[j]@) is Some,
    {
        let ghost inputs = payloads@;
        let mut out: Vec<Payload> = Vec::new();
        for p in it: payloads.into_iter()
            invariant
                it.seq() == inputs,
                out@.len() == it.index(),
                forall|j: int|
                    0 <= j < it.index() ==> opened_payload(#[trigger] inputs[j]@) is Some,
                forall|j: int|
                    0 <= j < it.index() ==> #[trigger] out@[j]@ == opened_payload(
                        inputs[j]@,
                    )->0,
        {
            match Self::check_opens(&p) {
                Ok(()) => {},
                Err(f) => {
                    return Err(f);
                },
            }
            out.push(Self::decode_payload(p));
        }
        Ok(out)
    }
}

} // verus!
