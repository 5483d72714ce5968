//! A single-use registration capability.
//!
//! An invite carries only a fresh version-4 UUID; the payload it is signed
//! into is the canonical invite JSON. The server stores nothing: the
//! identifier's uniqueness in the account table makes redemption
//! single-use.

use vstd::prelude::*;
use vstd::string::StrSliceExecFns;
use vstd::utf8::encode_utf8;

use crate::errors::AuthError;
use crate::textutil::ascii_to_string;
use crate::validate::{lemma_uuid_bytes_ascii, spec_valid_v4_uuid_bytes, valid_v4_uuid_bytes};

verus! {

/// A registration invite, identified by a version-4 UUID. On the wire it is
/// the payload `{"command":"registration_invite","uuid":U}`.
#[derive(Debug, Clone)]
pub struct Invite {
    pub uuid: String,
}

/// Relies on `uuid::Uuid::new_v4` and its `Display` form: a fresh random
/// UUID rendered as 36 lowercase hyphenated ASCII bytes with version
/// nibble 4 and an RFC 4122 variant nibble. Only that shape is promised.
#[verifier::external_body]
fn random_v4_uuid_bytes() -> (r: Vec<u8>)
    ensures
        spec_valid_v4_uuid_bytes(r@),
{
    uuid::Uuid::new_v4().to_string().into_bytes()
}

impl Invite {
    /// The UTF-8 bytes of the identifier.
    pub open spec fn uuid_bytes(&self) -> Seq<u8> {
        encode_utf8(self.uuid@)
    }

    /// The identifier is a lowercase version-4 UUID.
    pub open spec fn wf(&self) -> bool {
        spec_valid_v4_uuid_bytes(self.uuid_bytes())
    }

    /// A fresh invite with a random version-4 UUID.
    pub fn new() -> (r: Invite)
        ensures
            r.wf(),
    {
        let bytes = random_v4_uuid_bytes();
        proof {
            lemma_uuid_bytes_ascii(bytes@);
        }
        let uuid = ascii_to_string(&bytes);
        Invite { uuid }
    }

    /// An invite around an existing identifier, which must be a lowercase
    /// version-4 UUID.
    pub fn from_uuid(uuid: &str) -> (r: Result<Invite, AuthError>)
        ensures
            match r {
                Ok(inv) => spec_valid_v4_uuid_bytes(encode_utf8(uuid@)) && inv.uuid@ == uuid@
                    && inv.wf(),
                Err(e) => !spec_valid_v4_uuid_bytes(encode_utf8(uuid@)) && e
                    == AuthError::InvalidInvite,
            },
    {
        crate::validate::validate_v4_uuid(uuid)?;
        Ok(Invite { uuid: uuid.to_owned() })
    }

    /// The identifier.
    pub fn uuid(&self) -> (r: &str)
        ensures
            r@ == self.uuid@,
    {
        self.uuid.as_str()
    }

    /// The canonical invite payload JSON.
    pub fn to_json(&self) -> (r: Vec<u8>)
        requires
            self.wf(),
        ensures
            r@ == crate::wire::invite_wire(self.uuid_bytes()),
    {
        let bytes = self.uuid.as_str().as_bytes_vec();
        crate::wire::invite_to_json(bytes.as_slice())
    }

    /// An invite from parsed payload UUID bytes.
    pub fn from_uuid_bytes(bytes: &Vec<u8>) -> (r: Result<Invite, AuthError>)
        ensures
            match r {
                Ok(inv) => spec_valid_v4_uuid_bytes(bytes@) && inv.uuid_bytes() == bytes@
                    && inv.wf(),
                Err(e) => !spec_valid_v4_uuid_bytes(bytes@) && e == AuthError::InvalidInvite,
            },
    {
        if !valid_v4_uuid_bytes(bytes.as_slice()) {
            return Err(AuthError::InvalidInvite);
        }
        proof {
            lemma_uuid_bytes_ascii(bytes@);
        }
        let uuid = ascii_to_string(bytes);
        Ok(Invite { uuid })
    }
}

} // verus!
