//! Confidential-auction core: commitment codec, pricing engines, auction
//! lifecycle, settlement and batch coordination, with machine-checked contracts.

use vstd::prelude::*;

pub mod bytes;
pub mod circuits;
pub mod codec;
pub mod crypto;
pub mod digest;
pub mod entropy;
pub mod error;
pub mod instructions;
pub mod pricing;
pub mod state;

verus! {

/// What a computation hands back: its output bytes, or why it failed.
#[derive(Debug)]
pub enum ComputationOutputs {
    Bytes(Vec<u8>),
    Error(String),
}

} // verus!
