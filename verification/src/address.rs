//! A plain stand-in for a wallet address.
//!
//! The domain encoding of addresses is out of scope for the client core; the
//! subscription filter and the derivation managers only carry addresses
//! through, so an address is held as the plain value the core reads.

use vstd::prelude::*;

verus! {

/// A wallet address, reduced to the value the client core carries through.
#[derive(Clone, Copy, Debug, PartialEq, Eq, Structural)]
pub struct Address {
    pub payload: u64,
}

} // verus!
