//! The signed message envelope: a self-describing, algorithm-tagged
//! container binding a payload to a signature and, in asymmetric mode, the
//! signer's public key.
//!
//! One envelope type serves two trust models: "prove who I am" (Ed25519,
//! used by every account-bound call) and "prove the server issued this"
//! (HMAC-SHA256, used for invite tokens). Every operation checks the mode
//! tag first.

use vstd::prelude::*;
use vstd::string::StringSliceAdditionalSpecFns;

use crate::algorithm::{hmac_name_bytes, spec_parse_algo, Algorithm};
use crate::ed25519::{
    ed25519_pubkey_parses, ed25519_pubkey_valid, ed25519_public_of, ed25519_sign_of,
    ed25519_sign_with_public, ed25519_verifies, ed25519_verify_strict,
};
use crate::errors::AuthError;
use crate::hashes::{hmac_sha256, hmac_sha256_of, hmac_sha256_verify};
use crate::private_key::PrivateKey;

verus! {

/// The wire-serializable authentication envelope. Immutable once
/// constructed; binary fields travel base64-encoded.
#[derive(Debug, Clone)]
pub struct SignedMessage {
    pub algo: Algorithm,
    pub pubk: Vec<u8>,
    pub sig: Vec<u8>,
    pub msg: Vec<u8>,
}

/// The mathematical model of an envelope: the algorithm tag and the three
/// byte strings.
pub struct EnvelopeModel {
    pub algo: Algorithm,
    pub pubk: Seq<u8>,
    pub sig: Seq<u8>,
    pub msg: Seq<u8>,
}

impl View for SignedMessage {
    type V = EnvelopeModel;

    open spec fn view(&self) -> EnvelopeModel {
        EnvelopeModel { algo: self.algo, pubk: self.pubk@, sig: self.sig@, msg: self.msg@ }
    }
}

impl EnvelopeModel {
    /// The structural invariant of an envelope: symmetric mode has no
    /// public key; asymmetric mode carries the fixed-size key and signature.
    pub open spec fn wf(&self) -> bool {
        match self.algo {
            Algorithm::HmacSha256 => self.pubk.len() == 0,
            Algorithm::Ed25519 => self.pubk.len() == 32 && self.sig.len() == 64,
        }
    }
}

/// The envelope produced by signing `msg` with a key of the given
/// algorithm and material.
pub open spec fn spec_create(key_algo: Algorithm, key: Seq<u8>, msg: Seq<u8>) -> EnvelopeModel {
    match key_algo {
        Algorithm::HmacSha256 => EnvelopeModel {
            algo: Algorithm::HmacSha256,
            pubk: Seq::empty(),
            sig: hmac_sha256_of(key, msg),
            msg: msg,
        },
        Algorithm::Ed25519 => EnvelopeModel {
            algo: Algorithm::Ed25519,
            pubk: ed25519_public_of(key),
            sig: ed25519_sign_of(key, msg),
            msg: msg,
        },
    }
}

/// What asymmetric verification returns on an envelope: the payload, or
/// the exact error.
pub open spec fn spec_verify(m: EnvelopeModel) -> Result<Seq<u8>, AuthError> {
    if m.algo is HmacSha256 {
        Err(AuthError::WrongMode)
    } else if m.pubk.len() != 32 {
        Err(AuthError::InvalidPublicKey)
    } else if !ed25519_pubkey_valid(m.pubk) {
        Err(AuthError::InvalidPublicKey)
    } else if m.sig.len() != 64 {
        Err(AuthError::InvalidSignature)
    } else if !ed25519_verifies(m.pubk, m.sig, m.msg) {
        Err(AuthError::SignatureMismatch)
    } else {
        Ok(m.msg)
    }
}

/// What symmetric verification returns on an envelope under a key: the
/// payload exactly when the embedded tag is the HMAC-SHA256 tag of the
/// payload under that key.
pub open spec fn spec_verify_with_secret(
    m: EnvelopeModel,
    key_algo: Algorithm,
    key: Seq<u8>,
) -> Result<Seq<u8>, AuthError> {
    if !(m.algo is HmacSha256) {
        Err(AuthError::WrongMode)
    } else if !(key_algo is HmacSha256) {
        Err(AuthError::WrongMode)
    } else if m.sig == hmac_sha256_of(key, m.msg) {
        Ok(m.msg)
    } else {
        Err(AuthError::SignatureMismatch)
    }
}

/// The algorithm accepted for an inbound envelope with the given name and
/// field sizes, or the exact rejection.
pub open spec fn spec_try_new(algo_name: Seq<u8>, pubk: Seq<u8>, sig: Seq<u8>) -> Result<
    Algorithm,
    AuthError,
> {
    if algo_name == hmac_name_bytes() && pubk.len() != 0 {
        Err(AuthError::InvalidPublicKey)
    } else {
        match spec_parse_algo(algo_name) {
            None => Err(AuthError::UnsupportedAlgorithm),
            Some(Algorithm::Ed25519) => {
                if pubk.len() != 32 {
                    Err(AuthError::InvalidPublicKey)
                } else if sig.len() != 64 {
                    Err(AuthError::InvalidSignature)
                } else {
                    Ok(Algorithm::Ed25519)
                }
            },
            Some(Algorithm::HmacSha256) => Ok(Algorithm::HmacSha256),
        }
    }
}

impl SignedMessage {
    /// An envelope from inbound wire fields, validated against the
    /// structural invariant.
    pub fn try_new(algo: &str, public_key: &[u8], signature: &[u8], message: &[u8]) -> (r: Result<
        SignedMessage,
        AuthError,
    >)
        ensures
            match r {
                Ok(m) => spec_try_new(algo.spec_bytes(), public_key@, signature@) == Ok::<
                    _,
                    AuthError,
                >(m@.algo) && m@.pubk == public_key@ && m@.sig == signature@ && m@.msg == message@
                    && m@.wf(),
                Err(e) => spec_try_new(algo.spec_bytes(), public_key@, signature@) == Err::<
                    Algorithm,
                    _,
                >(e),
            },
    {
        let b = algo.as_bytes();
        let hm = crate::algorithm::hmac_name_vec();
        if crate::bytesutil::bytes_eq(b, hm.as_slice()) && public_key.len() != 0 {
            return Err(AuthError::InvalidPublicKey);
        }
        let a = Algorithm::from_name(algo)?;
        if matches!(a, Algorithm::Ed25519) {
            if public_key.len() != 32 {
                return Err(AuthError::InvalidPublicKey);
            }
            if signature.len() != 64 {
                return Err(AuthError::InvalidSignature);
            }
        }
        let mut pubk: Vec<u8> = Vec::new();
        pubk.extend_from_slice(public_key);
        let mut sig: Vec<u8> = Vec::new();
        sig.extend_from_slice(signature);
        let mut msg: Vec<u8> = Vec::new();
        msg.extend_from_slice(message);
        proof {
            assert(pubk@ =~= public_key@);
            assert(sig@ =~= signature@);
            assert(msg@ =~= message@);
        }
        Ok(SignedMessage { algo: a, pubk, sig, msg })
    }

    /// Sign a payload: symmetric mode embeds the HMAC-SHA256 tag and no
    /// public key; asymmetric mode embeds the derived verifying key and the
    /// Ed25519 signature.
    pub fn create(secret_key: PrivateKey, msg: &[u8]) -> (r: Result<SignedMessage, AuthError>)
        requires
            secret_key.wf(),
        ensures
            r matches Ok(m) && m@ == spec_create(secret_key.algo, secret_key.key@, msg@)
                && m@.wf(),
            secret_key.algo is Ed25519 ==> ed25519_pubkey_valid(
                ed25519_public_of(secret_key.key@),
            ) && ed25519_verifies(
                ed25519_public_of(secret_key.key@),
                ed25519_sign_of(secret_key.key@, msg@),
                msg@,
            ),
    {
        match secret_key.algo {
            Algorithm::HmacSha256 => {
                let sig = hmac_sha256(secret_key.key.as_slice(), msg);
                let mut m: Vec<u8> = Vec::new();
                m.extend_from_slice(msg);
                let pubk: Vec<u8> = Vec::new();
                proof {
                    assert(m@ =~= msg@);
                    assert(pubk@ =~= Seq::<u8>::empty());
                }
                Ok(SignedMessage { algo: Algorithm::HmacSha256, pubk, sig, msg: m })
            },
            Algorithm::Ed25519 => {
                let (pubk, sig) = ed25519_sign_with_public(secret_key.key.as_slice(), msg);
                let mut m: Vec<u8> = Vec::new();
                m.extend_from_slice(msg);
                proof {
                    assert(m@ =~= msg@);
                }
                Ok(SignedMessage { algo: Algorithm::Ed25519, pubk, sig, msg: m })
            },
        }
    }

    /// The algorithm tag of this envelope.
    pub fn algo(&self) -> (r: Algorithm)
        ensures
            r == self@.algo,
    {
        self.algo
    }

    /// Asymmetric verification: the payload bytes exactly when the embedded
    /// Ed25519 signature verifies strictly under the embedded key.
    pub fn verify(&self) -> (r: Result<&[u8], AuthError>)
        ensures
            match r {
                Ok(p) => spec_verify(self@) == Ok::<Seq<u8>, AuthError>(p@),
                Err(e) => spec_verify(self@) == Err::<Seq<u8>, AuthError>(e),
            },
    {
        if matches!(self.algo, Algorithm::HmacSha256) {
            return Err(AuthError::WrongMode);
        }
        if self.pubk.len() != 32 {
            return Err(AuthError::InvalidPublicKey);
        }
        if !ed25519_pubkey_parses(self.pubk.as_slice()) {
            return Err(AuthError::InvalidPublicKey);
        }
        if self.sig.len() != 64 {
            return Err(AuthError::InvalidSignature);
        }
        if !ed25519_verify_strict(self.pubk.as_slice(), self.sig.as_slice(), self.msg.as_slice()) {
            return Err(AuthError::SignatureMismatch);
        }
        Ok(self.msg.as_slice())
    }

    /// Symmetric verification: recompute the HMAC-SHA256 tag under the
    /// supplied key and compare in constant time.
    pub fn verify_with_secret(&self, secret_key: PrivateKey) -> (r: Result<&[u8], AuthError>)
        ensures
            match r {
                Ok(p) => spec_verify_with_secret(self@, secret_key.algo, secret_key.key@) == Ok::<
                    Seq<u8>,
                    AuthError,
                >(p@),
                Err(e) => spec_verify_with_secret(self@, secret_key.algo, secret_key.key@) == Err::<
                    Seq<u8>,
                    AuthError,
                >(e),
            },
    {
        if matches!(self.algo, Algorithm::Ed25519) {
            return Err(AuthError::WrongMode);
        }
        if matches!(secret_key.algo, Algorithm::Ed25519) {
            return Err(AuthError::WrongMode);
        }
        if !hmac_sha256_verify(secret_key.key.as_slice(), self.msg.as_slice(), self.sig.as_slice())
        {
            return Err(AuthError::SignatureMismatch);
        }
        Ok(self.msg.as_slice())
    }

    /// The embedded public key; available only in asymmetric mode.
    pub fn public_key(&self) -> (r: Result<&[u8], AuthError>)
        ensures
            match r {
                Ok(p) => self@.algo is Ed25519 && p@ == self@.pubk,
                Err(e) => !(self@.algo is Ed25519) && e == AuthError::WrongMode,
            },
    {
        if matches!(self.algo, Algorithm::Ed25519) {
            Ok(self.pubk.as_slice())
        } else {
            Err(AuthError::WrongMode)
        }
    }
}

/// Round trip, asymmetric mode: an envelope created with an Ed25519 key
/// verifies back to the payload it was created over. The hypotheses are
/// exactly what `create` ensures about the signing primitives.
pub proof fn lemma_create_verify_round_trip(key: Seq<u8>, msg: Seq<u8>)
    requires
        ed25519_public_of(key).len() == 32,
        ed25519_sign_of(key, msg).len() == 64,
        ed25519_pubkey_valid(ed25519_public_of(key)),
        ed25519_verifies(ed25519_public_of(key), ed25519_sign_of(key, msg), msg),
    ensures
        spec_verify(spec_create(Algorithm::Ed25519, key, msg)) == Ok::<Seq<u8>, AuthError>(msg),
{
}

/// Round trip, symmetric mode: an envelope created with an HMAC key
/// verifies back to its payload under the same key, unconditionally.
pub proof fn lemma_create_verify_with_secret_round_trip(key: Seq<u8>, msg: Seq<u8>)
    ensures
        spec_verify_with_secret(spec_create(Algorithm::HmacSha256, key, msg), Algorithm::HmacSha256, key)
            == Ok::<Seq<u8>, AuthError>(msg),
{
}

/// Mode isolation: asymmetric verification of a symmetric envelope fails
/// with `WrongMode`.
pub proof fn lemma_verify_wrong_mode(m: EnvelopeModel)
    requires
        m.algo is HmacSha256,
    ensures
        spec_verify(m) == Err::<Seq<u8>, AuthError>(AuthError::WrongMode),
{
}

/// Mode isolation: symmetric verification of an asymmetric envelope fails
/// with `WrongMode`, whatever key is supplied.
pub proof fn lemma_verify_with_secret_wrong_mode(m: EnvelopeModel, key_algo: Algorithm, key: Seq<u8>)
    requires
        m.algo is Ed25519,
    ensures
        spec_verify_with_secret(m, key_algo, key) == Err::<Seq<u8>, AuthError>(AuthError::WrongMode),
{
}

/// Tamper rejection, symmetric mode: an envelope whose tag is not the
/// HMAC-SHA256 tag of its payload under the key is rejected with
/// `SignatureMismatch`.
pub proof fn lemma_hmac_tamper_rejected(m: EnvelopeModel, key: Seq<u8>)
    requires
        m.algo is HmacSha256,
        m.sig != hmac_sha256_of(key, m.msg),
    ensures
        spec_verify_with_secret(m, Algorithm::HmacSha256, key) == Err::<Seq<u8>, AuthError>(
            AuthError::SignatureMismatch,
        ),
{
}

} // verus!
