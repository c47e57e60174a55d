//! What keeps the phases of a client a closed set.
use vstd::prelude::*;

verus! {

/// A trait that only this crate can implement. Every phase has it, so no
/// other crate can declare a phase.
pub trait PrivatizedState {

}

} // verus!
