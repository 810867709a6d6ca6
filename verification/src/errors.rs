use vstd::prelude::*;

verus! {

/// Errors reported synchronously by the sliding sync engine and its lists.
///
/// Loop-time errors coming back from the server side are classified outside
/// the engine into "continue" or "stop"; everything surfaced through this
/// enum is returned directly to the caller.
#[derive(Clone, Debug, PartialEq, Eq)]
pub enum SlidingSyncError {
    /// The response received from the server cannot be reconciled with the
    /// client's current expectations; recovering may require a full resync.
    BadResponse { msg: String },
    /// `build()` was called while a required builder field was still unset.
    BuildMissingField { msg: String },
    /// A response was handled by a list whose request generator had not yet
    /// produced any request; surfaced distinctly for diagnosability.
    RequestGeneratorHasNotBeenInitialized { msg: String },
    /// A range mutation was attempted while the list's sync mode forbids it.
    CannotModifyRanges { msg: String },
    /// A range has a `start` bound greater than its `end` bound.
    InvalidRange { start: u32, end: u32 },
    /// Any other error, with its description preserved.
    Unknown { error: String },
}

} // verus!
