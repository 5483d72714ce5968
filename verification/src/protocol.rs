//! The invite capability protocol and the privileged-endpoint gates.
//!
//! Two transitions, no persisted state in between. *Mint*: the caller
//! presents the invite-minting token; the server signs a fresh invite with
//! the derived signing key and hands back the base64 transport token — the
//! token itself is the only record of the invite. *Redeem*: the token is
//! decoded, parsed, verified against the derived signing key, and its UUID
//! validated; the surrounding transaction then refuses an identifier that
//! already exists, which makes redemption single-use.

use vstd::prelude::*;
use vstd::string::StringSliceAdditionalSpecFns;
use vstd::utf8::encode_utf8;

use crate::algorithm::{spec_parse_algo, Algorithm};
use crate::b64;
use crate::b64::{base64_decode_of, base64_of};
use crate::errors::AuthError;
use crate::hashes::hmac_sha256_of;
use crate::hexcodec::spec_hex_decode;
use crate::invite::Invite;
use crate::limits::MAX_ITEM_NAME_SIZE;
use crate::private_key::PrivateKey;
use crate::secret::{derived_secret_of, PrimarySecret};
use crate::signed_message::{
    spec_create, spec_try_new, spec_verify, spec_verify_with_secret, EnvelopeModel, SignedMessage,
};
use crate::validate::{is_valid_dns_token, spec_dns_token, spec_valid_v4_uuid_bytes};
use crate::wire;
use crate::wire::{envelope_json, invite_wire, spec_parse_envelope, spec_parse_invite};

verus! {

/// The invite-signing key of a deployment.
pub open spec fn spec_signing_key(secret: Seq<u8>) -> Seq<u8> {
    derived_secret_of(secret, "signing_key"@)
}

/// The envelope a deployment signs an invite identifier into.
pub open spec fn spec_invite_envelope(secret: Seq<u8>, uuid: Seq<u8>) -> EnvelopeModel {
    spec_create(Algorithm::HmacSha256, spec_signing_key(secret), invite_wire(uuid))
}

/// The canonical JSON of that envelope.
pub open spec fn spec_invite_token_json(secret: Seq<u8>, uuid: Seq<u8>) -> Seq<u8> {
    envelope_json(spec_invite_envelope(secret, uuid))
}

/// What redeeming a transport token yields under a deployment's root
/// secret: the invite's UUID bytes, or the exact error. Fails closed on
/// anything but a canonically encoded envelope whose tag is the HMAC of
/// its payload under the derived signing key and whose payload carries a
/// valid lowercase version-4 UUID.
pub open spec fn spec_redeem(secret: Seq<u8>, token: Seq<u8>) -> Result<Seq<u8>, AuthError> {
    match base64_decode_of(token) {
        None => Err(AuthError::InvalidEncoding),
        Some(jb) => match spec_parse_envelope(jb) {
            None => Err(AuthError::InvalidInvite),
            Some(env) => match spec_verify_with_secret(
                env,
                Algorithm::HmacSha256,
                spec_signing_key(secret),
            ) {
                Err(e) => Err(e),
                Ok(payload) => match spec_parse_invite(payload) {
                    None => Err(AuthError::InvalidInvite),
                    Some(uuid) => {
                        if spec_valid_v4_uuid_bytes(uuid) {
                            Ok(uuid)
                        } else {
                            Err(AuthError::InvalidInvite)
                        }
                    },
                },
            },
        },
    }
}

/// Sign an invite into an opaque transport token: the base64 encoding of
/// the canonical envelope JSON. The second clause is the mint half of the
/// round trip: the token it returns redeems to the same invite.
pub fn make_invite_token(primary: &PrimarySecret, invite: &Invite) -> (r: Result<String, AuthError>)
    requires
        invite.wf(),
    ensures
        r matches Ok(t) && encode_utf8(t@) == base64_of(
            spec_invite_token_json(primary.secret@, invite.uuid_bytes()),
        ) && spec_redeem(primary.secret@, encode_utf8(t@)) == Ok::<_, AuthError>(
            invite.uuid_bytes(),
        ),
{
    let signing_key = primary.derive_secret("signing_key");
    let key = PrivateKey { algo: Algorithm::HmacSha256, key: signing_key };
    let payload = invite.to_json();
    let env = SignedMessage::create(key, payload.as_slice())?;
    let jb = wire::envelope_to_json(&env);
    let token = b64::encode(jb.as_slice());
    proof {
        wire::lemma_parse_envelope_wire(
            env@,
            base64_of(env@.pubk),
            base64_of(env@.sig),
            base64_of(env@.msg),
        );
        wire::lemma_parse_invite_wire(invite.uuid_bytes());
    }
    Ok(token)
}

/// Mint transition: gate on the invite-minting token, then sign a fresh
/// random invite. On success the returned token redeems to some valid
/// invite identifier; on a bad gate token nothing is minted.
pub fn new_invite(primary: &PrimarySecret, token_hex: &str) -> (r: Result<String, AuthError>)
    ensures
        match r {
            Ok(t) => spec_hex_decode(token_hex.spec_bytes()) == Some(
                derived_secret_of(primary.secret@, "invite_making_token"@),
            ) && (exists|u: Seq<u8>|
                spec_valid_v4_uuid_bytes(u) && spec_redeem(primary.secret@, encode_utf8(t@))
                    == Ok::<_, AuthError>(u)),
            Err(e) => e == AuthError::Unauthorized && spec_hex_decode(token_hex.spec_bytes())
                != Some(derived_secret_of(primary.secret@, "invite_making_token"@)),
        },
{
    primary.check_derived_token("invite_making_token", token_hex)?;
    let invite = Invite::new();
    let token = make_invite_token(primary, &invite)?;
    proof {
        let u = invite.uuid_bytes();
        assert(spec_valid_v4_uuid_bytes(u) && spec_redeem(primary.secret@, encode_utf8(token@))
            == Ok::<_, AuthError>(u));
    }
    Ok(token)
}

/// Redeem transition, verification half: decode, parse and verify a
/// transport token and recover the invite it carries.
pub fn redeem_invite_token(primary: &PrimarySecret, token: &str) -> (r: Result<Invite, AuthError>)
    ensures
        match r {
            Ok(inv) => spec_redeem(primary.secret@, token.spec_bytes()) == Ok::<_, AuthError>(
                inv.uuid_bytes(),
            ) && inv.wf(),
            Err(e) => spec_redeem(primary.secret@, token.spec_bytes()) == Err::<Seq<u8>, _>(e),
        },
{
    let jb = match b64::decode(token) {
        Ok(v) => v,
        Err(_) => {
            return Err(AuthError::InvalidEncoding);
        },
    };
    let env = match wire::parse_envelope_json(jb.as_slice()) {
        Some(m) => m,
        None => {
            return Err(AuthError::InvalidInvite);
        },
    };
    let signing_key = primary.derive_secret("signing_key");
    let key = PrivateKey { algo: Algorithm::HmacSha256, key: signing_key };
    let payload = match env.verify_with_secret(key) {
        Ok(p) => p,
        Err(e) => {
            return Err(e);
        },
    };
    let uuid_bytes = match wire::parse_invite_json(payload) {
        Some(u) => u,
        None => {
            return Err(AuthError::InvalidInvite);
        },
    };
    Invite::from_uuid_bytes(&uuid_bytes)
}

/// Redeem transition, decision half: the bounds check on the account name
/// and the single-use rule. `uuid_taken` reports whether the invite's
/// identifier already keys an account row; the check and the insert must
/// share one transaction.
pub fn authorize_registration(name: &str, uuid_taken: bool) -> (r: Result<(), AuthError>)
    ensures
        r is Ok <==> (name.spec_bytes().len() <= MAX_ITEM_NAME_SIZE && !uuid_taken),
        r == Err::<(), AuthError>(AuthError::NameTooLong) <==> name.spec_bytes().len()
            > MAX_ITEM_NAME_SIZE,
        r == Err::<(), AuthError>(AuthError::AccountAlreadyExists) <==> (name.spec_bytes().len()
            <= MAX_ITEM_NAME_SIZE && uuid_taken),
{
    if name.as_bytes().len() > MAX_ITEM_NAME_SIZE {
        return Err(AuthError::NameTooLong);
    }
    if uuid_taken {
        return Err(AuthError::AccountAlreadyExists);
    }
    Ok(())
}

/// The whole redeem transition short of the store write: token, name bound
/// and single-use rule, in that order.
pub fn redeem_registration(
    primary: &PrimarySecret,
    invite_token: &str,
    name: &str,
    uuid_taken: bool,
) -> (r: Result<Invite, AuthError>)
    ensures
        match r {
            Ok(inv) => spec_redeem(primary.secret@, invite_token.spec_bytes()) == Ok::<
                _,
                AuthError,
            >(inv.uuid_bytes()) && inv.wf() && name.spec_bytes().len() <= MAX_ITEM_NAME_SIZE
                && !uuid_taken,
            Err(e) => {
                ||| spec_redeem(primary.secret@, invite_token.spec_bytes()) == Err::<Seq<u8>, _>(e)
                ||| (spec_redeem(primary.secret@, invite_token.spec_bytes()) is Ok && e
                    == AuthError::NameTooLong && name.spec_bytes().len() > MAX_ITEM_NAME_SIZE)
                ||| (spec_redeem(primary.secret@, invite_token.spec_bytes()) is Ok
                    && name.spec_bytes().len() <= MAX_ITEM_NAME_SIZE && uuid_taken && e
                    == AuthError::AccountAlreadyExists)
            },
        },
{
    let invite = redeem_invite_token(primary, invite_token)?;
    authorize_registration(name, uuid_taken)?;
    Ok(invite)
}

/// The prologue of every account-bound endpoint: verify an inbound signed
/// request and yield the authenticated payload bytes and the signer's
/// public key, which callers use as the caller's identity.
pub fn verify_inbound(msg: &SignedMessage) -> (r: Result<(Vec<u8>, Vec<u8>), AuthError>)
    ensures
        match r {
            Ok(pair) => spec_verify(msg@) == Ok::<Seq<u8>, AuthError>(pair.0@) && pair.1@
                == msg@.pubk && msg@.algo is Ed25519,
            Err(e) => spec_verify(msg@) == Err::<Seq<u8>, AuthError>(e),
        },
{
    let public_key = match msg.public_key() {
        Ok(p) => vstd::slice::slice_to_vec(p),
        Err(_) => {
            return Err(AuthError::WrongMode);
        },
    };
    let payload = match msg.verify() {
        Ok(p) => vstd::slice::slice_to_vec(p),
        Err(e) => {
            return Err(e);
        },
    };
    Ok((payload, public_key))
}

/// What approving a credential rotation requires: the new credential must
/// be Ed25519, well-formed, and its accompanying signature must verify
/// over the caller's current public key.
pub open spec fn spec_rotation(
    algo_name: Seq<u8>,
    new_pubk: Seq<u8>,
    sig: Seq<u8>,
    outer_pubk: Seq<u8>,
) -> Result<(), AuthError> {
    if spec_parse_algo(algo_name) != Some(Algorithm::Ed25519) {
        Err(AuthError::UnsupportedAlgorithm)
    } else {
        match spec_try_new(algo_name, new_pubk, sig) {
            Err(e) => Err(e),
            Ok(_) => {
                if spec_verify(
                    EnvelopeModel { algo: Algorithm::Ed25519, pubk: new_pubk, sig: sig, msg: outer_pubk },
                ) is Ok {
                    Ok(())
                } else {
                    Err(AuthError::SignatureMismatch)
                }
            },
        }
    }
}

/// Credential rotation: the caller signed the outer envelope with their
/// current key; this checks that the *new* key's accompanying signature
/// covers the current public key, so that verifying-endpoint compromise
/// alone cannot rotate credentials.
pub fn verify_credential_rotation(
    new_algo: &str,
    new_public_key: &[u8],
    signature: &[u8],
    outer_public_key: &[u8],
) -> (r: Result<(), AuthError>)
    ensures
        r == spec_rotation(new_algo.spec_bytes(), new_public_key@, signature@, outer_public_key@),
{
    match Algorithm::from_name(new_algo) {
        Err(e) => {
            return Err(e);
        },
        Ok(Algorithm::HmacSha256) => {
            return Err(AuthError::UnsupportedAlgorithm);
        },
        Ok(Algorithm::Ed25519) => {},
    }
    let env = SignedMessage::try_new(new_algo, new_public_key, signature, outer_public_key)?;
    match env.verify() {
        Ok(_) => Ok(()),
        Err(_) => Err(AuthError::SignatureMismatch),
    }
}

/// Gate check for admin endpoints.
pub fn check_admin_token(primary: &PrimarySecret, token_hex: &str) -> (r: Result<(), AuthError>)
    ensures
        r is Ok <==> spec_hex_decode(token_hex.spec_bytes()) == Some(
            derived_secret_of(primary.secret@, "admin_token"@),
        ),
        r is Err ==> r == Err::<(), AuthError>(AuthError::Unauthorized),
{
    primary.check_derived_token("admin_token", token_hex)
}

/// The decision half of an admin page update: the admin gate and the page
/// name's shape; the write itself belongs to the store.
pub fn authorize_meta_update(primary: &PrimarySecret, token_hex: &str, page_name: &str) -> (r:
    Result<(), AuthError>)
    ensures
        r is Ok <==> (spec_hex_decode(token_hex.spec_bytes()) == Some(
            derived_secret_of(primary.secret@, "admin_token"@),
        ) && page_name.spec_bytes().len() <= 64 && spec_dns_token(page_name.spec_bytes())),
        r == Err::<(), AuthError>(AuthError::Unauthorized) <==> spec_hex_decode(
            token_hex.spec_bytes(),
        ) != Some(derived_secret_of(primary.secret@, "admin_token"@)),
{
    check_admin_token(primary, token_hex)?;
    if !is_valid_dns_token(page_name) {
        return Err(AuthError::InvalidEncoding);
    }
    Ok(())
}

/// Forgery rejection, the provable half: a token whose inner envelope does
/// not carry the HMAC-SHA256 tag of its payload under this deployment's
/// signing key is rejected with `SignatureMismatch`. (That a tag made with
/// a different root secret differs is a cryptographic, not logical, fact.)
pub proof fn lemma_redeem_rejects_bad_tag(
    secret: Seq<u8>,
    token: Seq<u8>,
    jb: Seq<u8>,
    env: EnvelopeModel,
)
    requires
        base64_decode_of(token) == Some(jb),
        spec_parse_envelope(jb) == Some(env),
        env.algo is HmacSha256,
        env.sig != hmac_sha256_of(spec_signing_key(secret), env.msg),
    ensures
        spec_redeem(secret, token) == Err::<Seq<u8>, AuthError>(AuthError::SignatureMismatch),
{
}

} // verus!
