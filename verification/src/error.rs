//! What can go wrong between the configured address strings and the list of
//! balances.

use crate::address::AddressFault;
use vstd::prelude::*;

verus! {

/// A configured string that is not an address.
#[derive(Debug, PartialEq, Eq)]
pub struct InvalidAddress {
    /// Where the string stands in the configured list, counting from 0.
    pub position: usize,
    /// The string itself.
    pub text: String,
    /// Why it was refused.
    pub fault: AddressFault,
}

/// A request that the node did not answer: the connection, a timeout or the
/// protocol failed.
#[derive(Debug, PartialEq, Eq)]
pub struct NetworkError {
    /// What the client reported.
    pub message: String,
}

} // verus!
