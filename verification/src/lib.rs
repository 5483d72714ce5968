//! A session-less authentication and invitation core for a multi-tenant
//! publishing service.
//!
//! Every privileged action is authorized by a self-contained signed message
//! rather than server-side session state, and account creation is gated by
//! single-use, cryptographically delegated invite capabilities derived from
//! one root secret. The building blocks, leaf first: keyed secret
//! derivation ([`secret`]), typed private keys ([`private_key`]), the
//! signed message envelope ([`signed_message`]) with its canonical wire
//! form ([`wire`]), and the invite capability protocol ([`protocol`]).

mod bytesutil;
mod ctcmp;
mod ed25519;
mod hashes;
mod rng;
mod textutil;

pub mod algorithm;
pub mod b64;
pub mod errors;
pub mod hexcodec;
pub mod invite;
pub mod limits;
pub mod private_key;
pub mod protocol;
pub mod secret;
pub mod signed_message;
pub mod types;
pub mod validate;
pub mod wire;
