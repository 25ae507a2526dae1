//! What can go wrong in a fetch.
use vstd::prelude::*;

verus! {

/// The failures of a fetch, each scoped to the step that raised it.
#[derive(Clone, Copy, Debug, PartialEq, Eq, Structural)]
pub enum FetchError {
    /// The identifier is not a non-negative integer; nothing was sent.
    Validation,
    /// No credential was configured; no request can be made.
    MissingCredential,
    /// A network failure or a non-success status.
    Request,
    /// The response does not match the expected schema.
    Decode,
    /// Writing to the local cache failed.
    Storage,
}

} // verus!
