//! A registry of certificates behind role-based access control.
//!
//! The registry issues certificates, changes their status and their
//! metadata, and gives a verdict on them. Every change passes a check first:
//! the caller must hold the role that the operation asks for. The store, the
//! log of notices, the authenticated caller and the time are handed to each
//! operation; the registry itself keeps nothing between calls.

pub mod access_control;
pub mod contract;
pub mod errors;
pub mod events;
pub mod laws;
pub mod storage;
pub mod text_map;
pub mod types;
pub mod utils;

pub use contract::SuperCertificationContract;
pub use errors::Error;
pub use types::{
    CertificateDetails, CertificateMetadata, CertificateStatus, CertificateType,
    CertificationAuthority, Principal, Role, VerificationResult,
};
