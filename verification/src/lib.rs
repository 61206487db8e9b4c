//! Whitelist of call hashes: a privileged origin whitelists the hash of a call, and another
//! origin may then dispatch the call with that hash as root, once.
//!
//! The pallet's decisions are modelled as verified transitions of [`pallet::Pallet`]; what the
//! runtime around it provides (origin checks, the preimage store, decoding of calls, the
//! dispatch of the call itself) comes in as plain values.
pub mod weight;
pub mod types;
pub mod hashing;
pub mod spec;
pub mod validity;
pub mod pallet;
pub mod preimages;
pub mod laws;
