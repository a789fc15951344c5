//! The error taxonomy shared by the icon utilities.

use vstd::prelude::*;

verus! {

/// Why an icon operation failed.
///
/// `ParseError` and `InvalidInput` originate in this library's own logic;
/// the remaining variants classify failures of the outside collaborators
/// (credential lookup, the vision/generation service, and byte-level I/O,
/// which includes the image codec).
#[derive(Clone, Copy, Debug, PartialEq, Eq, Structural)]
pub enum IconError {
    /// The required API credential is absent from the environment.
    ConfigurationError,
    /// The external vision/generation service failed or returned a
    /// non-success status.
    NetworkOrServiceError,
    /// A free-form text response did not yield exactly four integers.
    ParseError,
    /// A degenerate or inverted rectangle, or one that lies entirely
    /// outside the image bounds.
    InvalidInput,
    /// A byte-level read, write, decode or encode failure.
    IOError,
}

} // verus!
