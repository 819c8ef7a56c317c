//! The closed taxonomy of domain error codes shared by the proxy and the swap
//! service. A domain error aborts the invocation with the numeric code
//! `65536 + ordinal`, where the ordinal follows declaration order starting at
//! one; the offset keeps every domain code above the host runtime's own
//! reserved low-numbered codes.

use vstd::prelude::*;

verus! {

/// Offset that places every domain abort code above the host runtime's
/// reserved error band.
pub const USER_ERROR_OFFSET: u32 = 65536;

/// Domain error codes. Declaration order is load-bearing: each variant's
/// abort code is `USER_ERROR_OFFSET` plus its position in this list, counted
/// from one.
#[derive(Clone, Copy, Debug, PartialEq, Eq, Structural)]
pub enum Error {
    /// Caller lacks administrative capability for an admin-only operation.
    NotAdmin,
    /// Requested amount is outside the allowed numeric range for a swap.
    ExceededSwapRange,
    /// Requested amount exceeds the cap permitted by the caller's KYC level.
    ExceededSwapAllowanceByKyc,
    /// Fewer parameters were supplied than the operation requires.
    InsufficientNumOfSwapParams,
    /// Caller has no KYC record.
    NotRegisteredKYC,
    /// Duplicate registration after the one-time incentive was already paid.
    AlreadyRegisteredAndReceivedSmallToken,
    /// KYC level outside the enumerated valid set.
    InvalidKYCLevelValue,
    /// Signature verification against a legacy address failed.
    InvalidSignature,
    /// This wallet's swap has already been finalized; replay rejected.
    AlreadySwapProceeded,
    /// The method-name token matched none of the known proxy methods.
    UnknownProxyApi,
}

impl Error {
    /// Position in the declaration order, counted from one.
    pub open spec fn spec_ordinal(&self) -> u16 {
        match *self {
            Error::NotAdmin => 1,
            Error::ExceededSwapRange => 2,
            Error::ExceededSwapAllowanceByKyc => 3,
            Error::InsufficientNumOfSwapParams => 4,
            Error::NotRegisteredKYC => 5,
            Error::AlreadyRegisteredAndReceivedSmallToken => 6,
            Error::InvalidKYCLevelValue => 7,
            Error::InvalidSignature => 8,
            Error::AlreadySwapProceeded => 9,
            Error::UnknownProxyApi => 10,
        }
    }

    /// Position in the declaration order, counted from one.
    #[verifier::when_used_as_spec(spec_ordinal)]
    pub fn ordinal(&self) -> (r: u16)
        ensures
            r == self.spec_ordinal(),
    {
        match *self {
            Error::NotAdmin => 1,
            Error::ExceededSwapRange => 2,
            Error::ExceededSwapAllowanceByKyc => 3,
            Error::InsufficientNumOfSwapParams => 4,
            Error::NotRegisteredKYC => 5,
            Error::AlreadyRegisteredAndReceivedSmallToken => 6,
            Error::InvalidKYCLevelValue => 7,
            Error::InvalidSignature => 8,
            Error::AlreadySwapProceeded => 9,
            Error::UnknownProxyApi => 10,
        }
    }

    /// The abort code surfaced to the caller when the invocation ends with
    /// this error.
    pub fn code(&self) -> (r: u32)
        ensures
            r == USER_ERROR_OFFSET + self.spec_ordinal(),
    {
        USER_ERROR_OFFSET + (self.ordinal() as u32)
    }
}

} // verus!
