//! Loc'd Protocol library: keys, delegation tokens, DNS records,
//! revocation and the challenge-response verification layer.

pub mod aead;
pub mod audit;
pub mod builder;
pub mod bytes;
pub mod cbor;
pub mod claimant;
pub mod compliance;
pub mod constants;
pub mod ed25519;
pub mod encoding;
pub mod error;
pub mod idset;
pub mod kdf;
pub mod keys;
pub mod messages;
pub mod mockdns;
pub mod password;
pub mod records;
pub mod resolver;
pub mod revocation;
pub mod text;
pub mod token;
pub mod toolkit;
pub mod txt;
pub mod types;
pub mod validator;
pub mod vectors;
pub mod verification;
pub mod x25519;
