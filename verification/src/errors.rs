//! The failures that the registry reports to its callers.

use vstd::prelude::*;

verus! {

/// Every failure of a registry operation. Each variant has a stable numeric
/// code, given by [`Error::code`], under which a host reports it.
#[derive(Copy, Clone, Debug, PartialEq, Eq, Structural, PartialOrd, Ord)]
pub enum Error {
    /// The caller does not hold the capability that the operation asks for.
    Unauthorized,
    /// A certificate is already recorded under the identifier.
    CertificateAlreadyExists,
    /// No certificate is recorded under the identifier.
    CertificateNotFound,
    /// An administrator is already recorded.
    AlreadyInitialized,
    /// A certification authority is already recorded for the principal.
    AuthorityAlreadyExists,
    /// No certification authority is recorded for the principal.
    AuthorityNotFound,
    /// The certification authority is inactive.
    AuthorityInactive,
    /// The certificate has expired.
    CertificateExpired,
    /// The certificate has been revoked.
    CertificateRevoked,
    /// The certificate is suspended.
    CertificateSuspended,
    /// A verification did not succeed.
    VerificationFailed,
    /// A signature is invalid.
    InvalidSignature,
    /// Metadata is empty, or the columns of a batch differ in length.
    InvalidMetadata,
    /// The role is already held.
    RoleAlreadyExists,
    /// The role is not held.
    RoleNotFound,
    /// Kept for a batch mode that fails as a whole.
    BatchOperationFailed,
    /// The certificate type is not one of the known types.
    InvalidCertificateType,
    /// The certificate status is not one of the known statuses.
    InvalidCertificateStatus,
    /// The operation is not supported.
    OperationNotSupported,
    /// A parameter is invalid.
    InvalidParameter,
}

impl Error {
    /// The numeric code of the failure: the variants are numbered from 1 in
    /// the order of their declaration.
    pub open spec fn spec_code(self) -> u32 {
        match self {
            Error::Unauthorized => 1,
            Error::CertificateAlreadyExists => 2,
            Error::CertificateNotFound => 3,
            Error::AlreadyInitialized => 4,
            Error::AuthorityAlreadyExists => 5,
            Error::AuthorityNotFound => 6,
            Error::AuthorityInactive => 7,
            Error::CertificateExpired => 8,
            Error::CertificateRevoked => 9,
            Error::CertificateSuspended => 10,
            Error::VerificationFailed => 11,
            Error::InvalidSignature => 12,
            Error::InvalidMetadata => 13,
            Error::RoleAlreadyExists => 14,
            Error::RoleNotFound => 15,
            Error::BatchOperationFailed => 16,
            Error::InvalidCertificateType => 17,
            Error::InvalidCertificateStatus => 18,
            Error::OperationNotSupported => 19,
            Error::InvalidParameter => 20,
        }
    }

    /// The numeric code under which the failure is reported.
    pub fn code(&self) -> (c: u32)
        ensures
            c == self.spec_code(),
            1 <= c <= 20,
    {
        match self {
            Error::Unauthorized => 1,
            Error::CertificateAlreadyExists => 2,
            Error::CertificateNotFound => 3,
            Error::AlreadyInitialized => 4,
            Error::AuthorityAlreadyExists => 5,
            Error::AuthorityNotFound => 6,
            Error::AuthorityInactive => 7,
            Error::CertificateExpired => 8,
            Error::CertificateRevoked => 9,
            Error::CertificateSuspended => 10,
            Error::VerificationFailed => 11,
            Error::InvalidSignature => 12,
            Error::InvalidMetadata => 13,
            Error::RoleAlreadyExists => 14,
            Error::RoleNotFound => 15,
            Error::BatchOperationFailed => 16,
            Error::InvalidCertificateType => 17,
            Error::InvalidCertificateStatus => 18,
            Error::OperationNotSupported => 19,
            Error::InvalidParameter => 20,
        }
    }
}

} // verus!
