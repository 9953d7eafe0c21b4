//! Content-addressing primitives: a cryptographic digest over a byte
//! sequence, rendered as a tagged lowercase-hex string.

use vstd::prelude::*;

pub mod digest;
pub mod hex;

pub use digest::merkle_root_demo;

verus! {

/// Error kind reserved for future failure paths; no operation in this
/// crate raises it.
#[derive(Debug)]
pub enum QcapError {
    Generic(String),
}

} // verus!
