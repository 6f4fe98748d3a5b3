use vstd::prelude::*;

verus! {

/// Everything a transition can fail with.
///
/// The first four kinds are validation failures, raised before any record is
/// touched. The remaining kinds come from the record store, the transfer of
/// native value, and the derivation of addresses.
#[derive(Clone, Copy, Debug, PartialEq, Eq, Structural)]
pub enum ErrorCode {
    /// Username length is invalid.
    InvalidUsername,
    /// Display name length is invalid.
    InvalidDisplayName,
    /// CID length is invalid.
    InvalidCid,
    /// Topic length is invalid.
    InvalidTopic,
    /// A live record already exists at the address.
    AddressOccupied,
    /// No live record of the expected shape exists at the address.
    AddressNotFound,
    /// The caller is not the identity that owns the record.
    Unauthorized,
    /// The paying identity does not hold enough native value.
    InsufficientFunds,
    /// No valid address exists for the given namespace and key parts.
    AddressSpaceExhausted,
}

} // verus!
