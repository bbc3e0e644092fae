//! The gas-metered core of an actor virtual machine.
//!
//! Every node of the network must reach the same result for the same
//! message, the gas consumed included. This crate holds the parts on which
//! that rests, each with its contract:
//!
//! - `gas_tracker`: the gas accounting of one execution;
//! - `price_list`: what each chargeable operation costs;
//! - `syscalls`: the cryptographic and proof-verifying primitives that a
//!   provider supplies;
//! - `gas_syscalls`: the decorator that charges for a primitive before it
//!   runs;
//! - `init`: the state of the init actor across its versions, where
//!   addresses are given their IDs;
//! - `reward`: the dispatch of a numbered method to its handler;
//! - `blockstore`: the content-addressed store behind the actors' state.
//!
//! The remaining modules hold the values that these work on (`address`,
//! `cid`, `crypto`, `sector`, `error`) and their byte forms (`bytes`,
//! `varint`, `codec`, `encoding`).

pub mod address;
pub mod blockstore;
pub mod bytes;
pub mod cid;
pub mod codec;
pub mod crypto;
pub mod encoding;
pub mod error;
pub mod gas_syscalls;
pub mod gas_tracker;
pub mod init;
pub mod price_list;
pub mod reward;
pub mod sector;
pub mod syscalls;
pub mod varint;
