//! A brute-force vanity-address miner for Tron-style accounts: random
//! private scalars are drawn, each is derived to its checksummed base-58
//! address, and an address is kept when enough of its trailing characters
//! repeat.  Derivation, filtering, batch accounting and the durable output
//! layout are verified; randomness, hashing, curve arithmetic and the
//! base-58/hex codecs are called through contracts stated over their
//! byte-level behaviour.

pub mod address;
pub mod batch;
pub mod bytes;
pub mod codec;
pub mod config;
pub mod filter;
pub mod hashes;
pub mod keys;
pub mod sink;
