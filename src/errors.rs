use vstd::prelude::*;

verus! {

/// Failures surfaced by the library. Each is returned to the caller, never
/// retried or replaced by a default.
#[derive(Clone, Debug, PartialEq, Eq)]
pub enum Error {
    /// The storage backend failed; the text is its own report.
    IO(String),
    /// Bytes did not decode as the requested canonical encoding.
    Cbor(String),
    /// A signature is present but does not verify.
    InvalidSig,
    /// Key material is malformed.
    InvalidKey,
    /// The hash primitive failed, or its digest has the wrong width.
    HashingError,
    /// No entry is stored under the requested digest.
    HashNotFound,
}

} // verus!
