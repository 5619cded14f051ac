//! The errors that the scheduler reports.

use vstd::prelude::*;

verus! {

/// What went wrong with a request; none of these is fatal.
#[derive(Clone, Copy, Debug, PartialEq, Eq, Structural)]
pub enum ErrorKind {
    /// A grade outside `0..=5`.
    InvalidGrade,
    /// A grade for an item that the deck does not hold.
    UnknownItem,
    /// An action that the session's current state does not allow.
    InvalidTransition,
}

} // verus!
