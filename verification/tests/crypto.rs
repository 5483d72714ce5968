//! Tests of key handling, secret derivation, the envelope operations and
//! the codecs, against published test vectors where they exist.

use alarkhabil_server::algorithm::Algorithm;
use alarkhabil_server::b64;
use alarkhabil_server::errors::AuthError;
use alarkhabil_server::hexcodec::{hex_decode, hex_encode};
use alarkhabil_server::private_key::PrivateKey;
use alarkhabil_server::protocol::verify_inbound;
use alarkhabil_server::secret::PrimarySecret;
use alarkhabil_server::signed_message::SignedMessage;

fn hex_to_bytes(s: &str) -> Vec<u8> {
    hex_decode(s.as_bytes()).expect("valid hex")
}

fn bytes_to_hex(b: &[u8]) -> String {
    String::from_utf8(hex_encode(b)).expect("hex is ascii")
}

#[test]
fn hex_round_trip_and_vectors() {
    assert_eq!(bytes_to_hex(&[0xbe, 0xef]), "beef");
    assert_eq!(bytes_to_hex(&[]), "");
    assert_eq!(hex_to_bytes("00ff10"), vec![0x00, 0xff, 0x10]);
    assert_eq!(hex_to_bytes("00FF10"), vec![0x00, 0xff, 0x10]);
    assert!(hex_decode(b"abc").is_none());
    assert!(hex_decode(b"zz").is_none());
    let data = vec![1u8, 2, 3, 250, 130, 77];
    assert_eq!(hex_to_bytes(&bytes_to_hex(&data)), data);
}

#[test]
fn base64_known_values() {
    assert_eq!(b64::encode(b"hello"), "aGVsbG8=");
    assert_eq!(b64::encode(b""), "");
    assert_eq!(b64::decode("aGVsbG8=").unwrap(), b"hello".to_vec());
    assert_eq!(b64::decode("").unwrap(), Vec::<u8>::new());
    assert!(b64::decode("!!!!").is_err());
    // non-canonical padding is refused
    assert!(b64::decode("aGVsbG8").is_err());
}

#[test]
fn derive_secret_matches_hmac_sha256_vector() {
    // RFC 4231 test case 2: key "Jefe", data "what do ya want for nothing?"
    let secret = PrimarySecret::new("Jefe".to_string());
    let derived = secret.derive_secret("what do ya want for nothing?");
    assert_eq!(
        bytes_to_hex(&derived),
        "5bdcc146bf60754e6a042426089575c75a003f089d2739839dec58b964ec3843"
    );
}

#[test]
fn derive_secret_is_deterministic_and_label_scoped() {
    let secret = PrimarySecret::new("root".to_string());
    let a1 = secret.derive_secret("x");
    let a2 = secret.derive_secret("x");
    let b = secret.derive_secret("y");
    assert_eq!(a1, a2);
    assert_ne!(a1, b);
    assert_eq!(a1.len(), 32);
    // derivation is not the identity on its inputs
    assert_ne!(a1, b"root".to_vec());
    assert_ne!(a1, b"x".to_vec());
}

#[test]
fn new_random_secret_is_hex_shaped() {
    let s1 = PrimarySecret::new_random();
    let s2 = PrimarySecret::new_random();
    assert_eq!(s1.secret.len(), 64);
    assert!(s1.secret.iter().all(|c| c.is_ascii_hexdigit()));
    assert_ne!(s1.secret, s2.secret);
}

#[test]
fn private_key_construction_rules() {
    assert!(PrivateKey::new("ed25519").is_ok());
    assert!(PrivateKey::new("hmac-sha256").is_ok());
    assert_eq!(
        PrivateKey::new("rsa").unwrap_err(),
        AuthError::UnsupportedAlgorithm
    );
    assert_eq!(
        PrivateKey::from_bytes("ed25519", &[0u8; 31]).unwrap_err(),
        AuthError::InvalidKeyLength
    );
    assert!(PrivateKey::from_bytes("ed25519", &[0u8; 32]).is_ok());
    // HMAC keys accept arbitrary length
    assert!(PrivateKey::from_bytes("hmac-sha256", b"Jefe").is_ok());
    assert!(PrivateKey::from_bytes("hmac-sha256", &[]).is_ok());
    let k = PrivateKey::new("ed25519").unwrap();
    assert_eq!(k.key().len(), 32);
    assert_eq!(k.algo(), Algorithm::Ed25519);
}

#[test]
fn ed25519_rfc8032_vector() {
    // RFC 8032, test vector 1: empty message
    let seed = hex_to_bytes("9d61b19deffd5a60ba844af492ec2cc44449c5697b326919703bac031cae7f60");
    let key = PrivateKey::from_bytes("ed25519", &seed).unwrap();
    let msg: &[u8] = b"";
    let envelope = SignedMessage::create(key, msg).unwrap();
    assert_eq!(
        bytes_to_hex(&envelope.pubk),
        "d75a980182b10ab7d54bfed3c964073a0ee172f3daa62325af021a68f707511a"
    );
    assert_eq!(
        bytes_to_hex(&envelope.sig),
        "e5564300c360ac729086e2cc806e828a84877f1eb8e5d974d873e06522490155\
         5fb8821590a33bacc61e39701cf9b46bd25bf5f0595bbe24655141438e7a100b"
    );
    assert_eq!(envelope.verify().unwrap(), msg);
}

#[test]
fn ed25519_round_trip() {
    let key = PrivateKey::new("ed25519").unwrap();
    let msg = b"payload bytes".to_vec();
    let envelope = SignedMessage::create(key, &msg).unwrap();
    assert_eq!(envelope.algo(), Algorithm::Ed25519);
    assert_eq!(envelope.public_key().unwrap().len(), 32);
    assert_eq!(envelope.verify().unwrap(), msg.as_slice());
}

#[test]
fn hmac_round_trip() {
    let key = PrivateKey::from_bytes("hmac-sha256", b"secret key").unwrap();
    let msg = b"payload bytes".to_vec();
    let envelope = SignedMessage::create(key, &msg).unwrap();
    assert_eq!(envelope.algo(), Algorithm::HmacSha256);
    assert!(envelope.pubk.is_empty());
    let key2 = PrivateKey::from_bytes("hmac-sha256", b"secret key").unwrap();
    assert_eq!(envelope.verify_with_secret(key2).unwrap(), msg.as_slice());
}

#[test]
fn hmac_create_matches_rfc4231_tag() {
    let key = PrivateKey::from_bytes("hmac-sha256", b"Jefe").unwrap();
    let envelope = SignedMessage::create(key, b"what do ya want for nothing?").unwrap();
    assert_eq!(
        bytes_to_hex(&envelope.sig),
        "5bdcc146bf60754e6a042426089575c75a003f089d2739839dec58b964ec3843"
    );
}

#[test]
fn mode_isolation() {
    // verify() on an hmac-sha256 envelope fails with WrongMode
    let key = PrivateKey::from_bytes("hmac-sha256", b"k").unwrap();
    let hmac_env = SignedMessage::create(key, b"m").unwrap();
    assert_eq!(hmac_env.verify().unwrap_err(), AuthError::WrongMode);
    assert_eq!(hmac_env.public_key().unwrap_err(), AuthError::WrongMode);

    // verify_with_secret() on an ed25519 envelope fails with WrongMode
    let key = PrivateKey::new("ed25519").unwrap();
    let ed_env = SignedMessage::create(key, b"m").unwrap();
    let hmac_key = PrivateKey::from_bytes("hmac-sha256", b"k").unwrap();
    assert_eq!(
        ed_env.verify_with_secret(hmac_key).unwrap_err(),
        AuthError::WrongMode
    );

    // an hmac envelope verified with an ed25519 key fails with WrongMode
    let key = PrivateKey::from_bytes("hmac-sha256", b"k").unwrap();
    let hmac_env = SignedMessage::create(key, b"m").unwrap();
    let ed_key = PrivateKey::new("ed25519").unwrap();
    assert_eq!(
        hmac_env.verify_with_secret(ed_key).unwrap_err(),
        AuthError::WrongMode
    );
}

fn rebuild_with(env: &SignedMessage, pubk: &[u8], sig: &[u8], msg: &[u8]) -> SignedMessage {
    SignedMessage::try_new(env.algo().name(), pubk, sig, msg).expect("well-formed fields")
}

#[test]
fn ed25519_tamper_rejection() {
    let key = PrivateKey::new("ed25519").unwrap();
    let msg = b"important message".to_vec();
    let envelope = SignedMessage::create(key, &msg).unwrap();
    assert!(envelope.verify().is_ok());

    // flip one bit in every byte position of the signature
    for i in 0..envelope.sig.len() {
        let mut sig = envelope.sig.clone();
        sig[i] ^= 1;
        let tampered = rebuild_with(&envelope, &envelope.pubk, &sig, &envelope.msg);
        assert!(tampered.verify().is_err(), "sig bit flip at byte {i} accepted");
    }
    // flip one bit in every byte position of the message
    for i in 0..envelope.msg.len() {
        let mut m = envelope.msg.clone();
        m[i] ^= 0x80;
        let tampered = rebuild_with(&envelope, &envelope.pubk, &envelope.sig, &m);
        assert!(tampered.verify().is_err(), "msg bit flip at byte {i} accepted");
    }
    // flip one bit in every byte position of the public key
    for i in 0..envelope.pubk.len() {
        let mut pk = envelope.pubk.clone();
        pk[i] ^= 2;
        let tampered = rebuild_with(&envelope, &pk, &envelope.sig, &envelope.msg);
        assert!(tampered.verify().is_err(), "pubk bit flip at byte {i} accepted");
    }
}

#[test]
fn hmac_tamper_rejection() {
    let key = PrivateKey::from_bytes("hmac-sha256", b"root").unwrap();
    let msg = b"invite payload".to_vec();
    let envelope = SignedMessage::create(key, &msg).unwrap();

    for i in 0..envelope.sig.len() {
        let mut sig = envelope.sig.clone();
        sig[i] ^= 1;
        let tampered = rebuild_with(&envelope, &[], &sig, &envelope.msg);
        let k = PrivateKey::from_bytes("hmac-sha256", b"root").unwrap();
        assert_eq!(
            tampered.verify_with_secret(k).unwrap_err(),
            AuthError::SignatureMismatch
        );
    }
    for i in 0..envelope.msg.len() {
        let mut m = envelope.msg.clone();
        m[i] ^= 0x10;
        let tampered = rebuild_with(&envelope, &[], &envelope.sig, &m);
        let k = PrivateKey::from_bytes("hmac-sha256", b"root").unwrap();
        assert_eq!(
            tampered.verify_with_secret(k).unwrap_err(),
            AuthError::SignatureMismatch
        );
    }
    // a short signature cannot match either and must not panic
    let short = rebuild_with(&envelope, &[], &envelope.sig[..31], &envelope.msg);
    let k = PrivateKey::from_bytes("hmac-sha256", b"root").unwrap();
    assert_eq!(
        short.verify_with_secret(k).unwrap_err(),
        AuthError::SignatureMismatch
    );
}

#[test]
fn try_new_validates_structure() {
    // a public key on a symmetric envelope is refused
    assert_eq!(
        SignedMessage::try_new("hmac-sha256", &[1u8], &[0u8; 32], b"m").unwrap_err(),
        AuthError::InvalidPublicKey
    );
    // unknown algorithms are refused
    assert_eq!(
        SignedMessage::try_new("rsa", &[], &[], b"m").unwrap_err(),
        AuthError::UnsupportedAlgorithm
    );
    // asymmetric envelopes must carry fixed-size fields
    assert_eq!(
        SignedMessage::try_new("ed25519", &[0u8; 31], &[0u8; 64], b"m").unwrap_err(),
        AuthError::InvalidPublicKey
    );
    assert_eq!(
        SignedMessage::try_new("ed25519", &[0u8; 32], &[0u8; 63], b"m").unwrap_err(),
        AuthError::InvalidSignature
    );
    assert!(SignedMessage::try_new("hmac-sha256", &[], &[0u8; 32], b"m").is_ok());
    assert!(SignedMessage::try_new("ed25519", &[0u8; 32], &[0u8; 64], b"m").is_ok());
}

#[test]
fn error_messages_are_stable() {
    assert_eq!(AuthError::Unauthorized.message(), "invalid token");
    assert_eq!(AuthError::UnsupportedAlgorithm.message(), "unsupported algorithm");
    assert_eq!(AuthError::AccountAlreadyExists.message(), "author already exists");
}

#[test]
fn inbound_verification_yields_payload_and_identity() {
    let key = PrivateKey::new("ed25519").unwrap();
    let envelope = SignedMessage::create(key, b"request body").unwrap();
    let (payload, public_key) = verify_inbound(&envelope).unwrap();
    assert_eq!(payload, b"request body".to_vec());
    assert_eq!(public_key, envelope.pubk);

    let key = PrivateKey::from_bytes("hmac-sha256", b"k").unwrap();
    let hmac_env = SignedMessage::create(key, b"request body").unwrap();
    assert_eq!(verify_inbound(&hmac_env).unwrap_err(), AuthError::WrongMode);
}
