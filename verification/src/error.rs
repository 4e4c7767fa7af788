//! Errors of the contract around the protocol.

use core::convert::Infallible;
use vstd::prelude::*;

verus! {

/// The error of what cannot fail. No value of it can be made: its one variant
/// holds a value of a type that has none.
#[derive(Debug)]
pub enum Never {
    Impossible(Infallible),
}

} // verus!
