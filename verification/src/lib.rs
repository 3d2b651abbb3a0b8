//! A minimal social-network primitive over an append-style ledger: user
//! profiles, content posts, and direct messages, each stored as an
//! independently addressed fixed-shape record.
//!
//! The host runtime parses transactions, proves which identities signed,
//! resolves record slots, and enforces all-or-nothing commit; those host
//! capabilities enter the library as explicit values (a signer identity, a
//! resolved record handle, the ordered instruction list of the enclosing
//! transaction, the current logical time). Everything the program itself
//! decides — field admission, authorization, deterministic addressing, and
//! the cross-instruction linkage check behind `create_post` — lives here,
//! with its contract.

pub mod address;
pub mod auth;
pub mod error;
pub mod identity;
pub mod laws;
pub mod ledger;
pub mod linkage;
pub mod payload;
pub mod records;
pub mod validation;
