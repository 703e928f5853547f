//! Identity binding for a single owner: a secp256k1 signature verifier with
//! Ethereum-style message hashing, a replay guard for one-time message
//! identifiers, an identity ledger, and the protocols that bind and unbind
//! platform identities against an external registry.

pub mod attest;
pub mod bytes;
pub mod coordinator;
pub mod decimal;
pub mod digest;
pub mod encoding;
pub mod http;
pub mod ledger;
pub mod profile;
pub mod replay;
pub mod secp;
pub mod sorted;
pub mod store;
pub mod text;
pub mod types;
pub mod verify;
