//! End-to-end tests of the invite capability protocol, the privileged
//! gates, credential rotation and the wire codec.

use alarkhabil_server::b64;
use alarkhabil_server::errors::AuthError;
use alarkhabil_server::hexcodec::hex_encode;
use alarkhabil_server::invite::Invite;
use alarkhabil_server::private_key::PrivateKey;
use alarkhabil_server::protocol::{
    authorize_meta_update, authorize_registration, check_admin_token, make_invite_token,
    new_invite, redeem_invite_token, redeem_registration, verify_credential_rotation,
};
use alarkhabil_server::secret::PrimarySecret;
use alarkhabil_server::signed_message::SignedMessage;
use alarkhabil_server::validate::validate_v4_uuid;
use alarkhabil_server::wire::{envelope_to_json, parse_envelope_json, parse_invite_json};

fn hex_string(b: &[u8]) -> String {
    String::from_utf8(hex_encode(b)).expect("hex is ascii")
}

const FIXED_UUID: &str = "11111111-1111-4111-8111-111111111111";

#[test]
fn minted_invite_redeems_once() {
    // the concrete scenario: root secret "s", a fixed invite identifier
    let secret = PrimarySecret::new("s".to_string());
    let invite = Invite::from_uuid(FIXED_UUID).unwrap();
    let token = make_invite_token(&secret, &invite).unwrap();

    // the token is base64 of the canonical envelope JSON, whose payload is
    // exactly the canonical invite JSON signed with derive("signing_key")
    let inner = b64::decode(&token).unwrap();
    let envelope = parse_envelope_json(&inner).unwrap();
    assert_eq!(
        envelope.msg,
        format!("{{\"command\":\"registration_invite\",\"uuid\":\"{FIXED_UUID}\"}}").into_bytes()
    );
    let signing_key = secret.derive_secret("signing_key");
    let key = PrivateKey::from_bytes("hmac-sha256", &signing_key).unwrap();
    assert!(envelope.verify_with_secret(key).is_ok());

    // a simple stand-in for the account table: redeem with a fresh key pair
    let mut accounts: Vec<String> = Vec::new();
    let taken = accounts.iter().any(|u| u == FIXED_UUID);
    let first = redeem_registration(&secret, &token, "Alice", taken).unwrap();
    assert_eq!(first.uuid(), FIXED_UUID);
    accounts.push(first.uuid().to_string());

    // the second redemption of the same token loses, with the exact error
    let taken = accounts.iter().any(|u| u == FIXED_UUID);
    assert_eq!(
        redeem_registration(&secret, &token, "Bob", taken).unwrap_err(),
        AuthError::AccountAlreadyExists
    );
}

#[test]
fn fresh_invites_are_distinct_and_valid() {
    let a = Invite::new();
    let b = Invite::new();
    assert!(validate_v4_uuid(a.uuid()).is_ok());
    assert!(validate_v4_uuid(b.uuid()).is_ok());
    assert_ne!(a.uuid(), b.uuid());
}

#[test]
fn invite_forgery_is_rejected() {
    // a token minted under a different root secret fails verification
    let ours = PrimarySecret::new("deployment root".to_string());
    let theirs = PrimarySecret::new("attacker root".to_string());
    let invite = Invite::from_uuid(FIXED_UUID).unwrap();
    let forged = make_invite_token(&theirs, &invite).unwrap();
    assert_eq!(
        redeem_invite_token(&ours, &forged).unwrap_err(),
        AuthError::SignatureMismatch
    );

    // a hand-crafted token without any valid signature fails too
    let payload = invite.to_json();
    let unsigned = SignedMessage::try_new("hmac-sha256", &[], &[0u8; 32], &payload).unwrap();
    let crafted = b64::encode(&envelope_to_json(&unsigned));
    assert_eq!(
        redeem_invite_token(&ours, &crafted).unwrap_err(),
        AuthError::SignatureMismatch
    );

    // garbage tokens fail closed
    assert_eq!(
        redeem_invite_token(&ours, "not base64 !!").unwrap_err(),
        AuthError::InvalidEncoding
    );
    assert_eq!(
        redeem_invite_token(&ours, &b64::encode(b"{\"not\":\"an envelope\"}")).unwrap_err(),
        AuthError::InvalidInvite
    );
}

#[test]
fn invite_uuid_policy_is_strict() {
    // uppercase is refused
    assert_eq!(
        Invite::from_uuid("11111111-1111-4111-8111-11111111111A").unwrap_err(),
        AuthError::InvalidInvite
    );
    // a version other than 4 is refused
    assert_eq!(
        Invite::from_uuid("11111111-1111-1111-8111-111111111111").unwrap_err(),
        AuthError::InvalidInvite
    );
    // a wrong variant nibble is refused
    assert_eq!(
        Invite::from_uuid("11111111-1111-4111-0111-111111111111").unwrap_err(),
        AuthError::InvalidInvite
    );
    // the braced and unhyphenated forms are refused
    assert!(Invite::from_uuid("{11111111-1111-4111-8111-111111111111}").is_err());
    assert!(Invite::from_uuid("11111111111141118111111111111111").is_err());
    assert!(validate_v4_uuid(FIXED_UUID).is_ok());
}

#[test]
fn redeem_checks_name_bound() {
    let secret = PrimarySecret::new("s".to_string());
    let invite = Invite::from_uuid(FIXED_UUID).unwrap();
    let token = make_invite_token(&secret, &invite).unwrap();
    let long_name = "x".repeat(101);
    assert_eq!(
        redeem_registration(&secret, &token, &long_name, false).unwrap_err(),
        AuthError::NameTooLong
    );
    let just_fits = "x".repeat(100);
    assert!(redeem_registration(&secret, &token, &just_fits, false).is_ok());
    assert_eq!(
        authorize_registration("Alice", true).unwrap_err(),
        AuthError::AccountAlreadyExists
    );
    assert!(authorize_registration("Alice", false).is_ok());
}

#[test]
fn invite_minting_gate() {
    let secret = PrimarySecret::new("deployment root".to_string());
    let good = hex_string(&secret.derive_secret("invite_making_token"));
    let token = new_invite(&secret, &good).unwrap();
    assert!(redeem_invite_token(&secret, &token).is_ok());

    // the admin token does not open the invite gate
    let wrong_purpose = hex_string(&secret.derive_secret("admin_token"));
    assert_eq!(
        new_invite(&secret, &wrong_purpose).unwrap_err(),
        AuthError::Unauthorized
    );
    assert_eq!(new_invite(&secret, "zzzz").unwrap_err(), AuthError::Unauthorized);
}

#[test]
fn admin_token_comparison_is_total() {
    let secret = PrimarySecret::new("deployment root".to_string());
    let good = hex_string(&secret.derive_secret("admin_token"));
    assert!(check_admin_token(&secret, &good).is_ok());

    // one byte (two hex digits) short: Unauthorized, not a panic
    let short = &good[..good.len() - 2];
    assert_eq!(
        check_admin_token(&secret, short).unwrap_err(),
        AuthError::Unauthorized
    );
    // odd-length and non-hex tokens are equally rejected
    assert_eq!(
        check_admin_token(&secret, &good[..good.len() - 1]).unwrap_err(),
        AuthError::Unauthorized
    );
    assert_eq!(
        check_admin_token(&secret, "not hex at all").unwrap_err(),
        AuthError::Unauthorized
    );
    assert_eq!(check_admin_token(&secret, "").unwrap_err(), AuthError::Unauthorized);
}

#[test]
fn meta_update_gate_checks_page_name() {
    let secret = PrimarySecret::new("deployment root".to_string());
    let good = hex_string(&secret.derive_secret("admin_token"));
    assert!(authorize_meta_update(&secret, &good, "about-us").is_ok());
    assert_eq!(
        authorize_meta_update(&secret, &good, "About Us").unwrap_err(),
        AuthError::InvalidEncoding
    );
    assert_eq!(
        authorize_meta_update(&secret, "beef", "about-us").unwrap_err(),
        AuthError::Unauthorized
    );
}

#[test]
fn credential_rotation_requires_proof_of_new_key() {
    // the caller's current identity
    let current = PrivateKey::new("ed25519").unwrap();
    let outer = SignedMessage::create(current, b"rotation request").unwrap();
    let outer_public_key = outer.public_key().unwrap().to_vec();

    // the new key signs the current public key
    let new_seed: Vec<u8> = (0u8..32).collect();
    let new_key = PrivateKey::from_bytes("ed25519", &new_seed).unwrap();
    let bundle = SignedMessage::create(new_key, &outer_public_key).unwrap();
    assert!(verify_credential_rotation(
        "ed25519",
        &bundle.pubk,
        &bundle.sig,
        &outer_public_key
    )
    .is_ok());

    // a signature over something else is refused
    let new_key = PrivateKey::from_bytes("ed25519", &new_seed).unwrap();
    let wrong = SignedMessage::create(new_key, b"something else").unwrap();
    assert_eq!(
        verify_credential_rotation("ed25519", &wrong.pubk, &wrong.sig, &outer_public_key)
            .unwrap_err(),
        AuthError::SignatureMismatch
    );

    // only the asymmetric algorithm can carry an account credential
    assert_eq!(
        verify_credential_rotation("hmac-sha256", &[], &[0u8; 32], &outer_public_key)
            .unwrap_err(),
        AuthError::UnsupportedAlgorithm
    );
    assert_eq!(
        verify_credential_rotation("rsa", &[0u8; 32], &[0u8; 64], &outer_public_key)
            .unwrap_err(),
        AuthError::UnsupportedAlgorithm
    );
}

#[test]
fn envelope_wire_round_trip() {
    let key = PrivateKey::new("ed25519").unwrap();
    let envelope = SignedMessage::create(key, b"some payload").unwrap();
    let json = envelope_to_json(&envelope);
    let parsed = parse_envelope_json(&json).unwrap();
    assert_eq!(parsed.algo, envelope.algo);
    assert_eq!(parsed.pubk, envelope.pubk);
    assert_eq!(parsed.sig, envelope.sig);
    assert_eq!(parsed.msg, envelope.msg);
    assert!(parsed.verify().is_ok());

    // the serialized form is real JSON in the documented shape
    let text = String::from_utf8(json).unwrap();
    assert!(text.starts_with("{\"algo\":\"ed25519\",\"pubk\":\""));
    assert!(text.ends_with("\"}"));

    // non-canonical text is refused
    assert!(parse_envelope_json(b"{\"algo\":\"ed25519\"}").is_none());
    assert!(parse_envelope_json(b"").is_none());
}

#[test]
fn invite_wire_round_trip() {
    let invite = Invite::from_uuid(FIXED_UUID).unwrap();
    let json = invite.to_json();
    assert_eq!(
        String::from_utf8(json.clone()).unwrap(),
        format!("{{\"command\":\"registration_invite\",\"uuid\":\"{FIXED_UUID}\"}}")
    );
    let uuid_bytes = parse_invite_json(&json).unwrap();
    assert_eq!(uuid_bytes, FIXED_UUID.as_bytes().to_vec());
    assert!(parse_invite_json(b"{\"command\":\"x\"}").is_none());
}
