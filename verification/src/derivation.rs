//! Address derivation managers, as the wallet layer expects to implement them.

use vstd::prelude::*;
use crate::address::Address;

verus! {

/// An error raised by an address derivation manager.
#[derive(Clone, Copy, Debug, PartialEq, Eq, Structural)]
pub enum DerivationError {
    /// The requested derivation index cannot be produced.
    IndexOutOfBounds,
}

/// A manager deriving receive or change addresses for one account branch.
///
/// The wallet layer implements this trait; the client core only states its
/// shape.
pub trait AddressDerivationManagerTrait {
    /// Derives the address at the next fresh index and advances the cursor.
    fn new_address(&mut self) -> Result<Address, DerivationError>;

    /// Returns the address at the current cursor.
    fn current_address(&self) -> Result<Address, DerivationError>;

    /// Returns the current cursor index.
    fn index(&self) -> Result<u32, DerivationError>;

    /// Moves the cursor to the given index.
    fn set_index(&mut self, index: u32) -> Result<(), DerivationError>;

    /// Derives every address whose index lies in `start..end`.
    fn get_range(&self, start: u32, end: u32) -> Result<Vec<Address>, DerivationError>;
}

} // verus!
