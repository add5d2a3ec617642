use vstd::prelude::*;

verus! {

/// Why a registrar lookup failed. Each failure is reported as exactly one of
/// these kinds.
#[derive(PartialEq, Eq, Structural, Debug, Clone, Copy)]
pub enum LookupError {
    /// The domain is not a valid name for key derivation.
    InvalidDomain,
    /// The ledger node could not be reached or answered with an error.
    AccountUnreachable,
    /// No data is stored at the registrar's address.
    AccountNotFound,
    /// The stored data is too short to hold a tag byte.
    MalformedAccount,
    /// The stored data holds a record of another kind than a registrar.
    UnexpectedRecordTag,
    /// The tag is right but the rest of the data does not decode.
    DecodeError,
}

} // verus!
