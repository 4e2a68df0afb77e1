//! An M-of-N threshold authorization policy validator.
//!
//! Given the on-chain committed arguments of a lock (a 20-byte policy
//! commitment, optionally followed by an 8-byte relative time-lock bound)
//! and a witness-supplied policy descriptor, the library decides whether a
//! spend is structurally authorized: it decodes both byte layouts, enforces
//! the descriptor's invariants, binds the descriptor to the commitment via
//! a Blake2b digest, and enforces the optional relative time-lock against
//! the time-lock values of the associated output slots.
//!
//! Host access (reading arguments, witnesses and time-lock values) is left
//! to the caller, who hands the library plain bytes and integers.

pub mod arguments;
pub mod descriptor;
pub mod error;
pub mod hasher;
pub mod since;
pub mod validate;
