//! Digests, expiry and the assembling of a verdict.

use crate::errors::Error;
use crate::types::{
    CertificateDetails, CertificateDetailsView, CertificateStatus, VerificationResult,
    VerificationResultView,
};
use vstd::prelude::*;

verus! {

/// The lower-case hexadecimal digit of a nibble, as an ASCII byte.
pub open spec fn spec_hex_char(nibble: u8) -> u8 {
    if nibble <= 9 {
        (48 + nibble) as u8
    } else if nibble <= 15 {
        (87 + nibble) as u8
    } else {
        63u8
    }
}

/// Renders one nibble as a lower-case hexadecimal ASCII digit; a value that is
/// no nibble gives `?`.
pub fn hex_char(nibble: u8) -> (c: u8)
    ensures
        c == spec_hex_char(nibble),
{
    if nibble <= 9 {
        48 + nibble
    } else if nibble <= 15 {
        87 + nibble
    } else {
        63
    }
}

/// The digest of a certificate's metadata: 32 zero bytes, whatever the
/// identifier and the metadata are. The registry computes no hash of its
/// own; the digest is a placeholder of the right size.
pub open spec fn spec_hash_metadata(cert_id: Seq<char>, metadata: Seq<char>) -> Seq<u8> {
    Seq::new(32, |i: int| 0u8)
}

/// The text under which a digest is recorded: the same for every digest.
pub open spec fn spec_bytes_to_string(bytes: Seq<u8>) -> Seq<char> {
    "bytes_hash"@
}

/// The text recorded as the digest of a certificate's metadata.
pub open spec fn metadata_hash_text(cert_id: Seq<char>, metadata: Seq<char>) -> Seq<char> {
    spec_bytes_to_string(spec_hash_metadata(cert_id, metadata))
}

/// Whether the certificate is past its expiration date at time `now`. An
/// expiration date of 0 stands for a certificate that never expires.
pub open spec fn expired_at(cert: CertificateDetailsView, now: u64) -> bool {
    cert.metadata.expiration_date != 0 && now > cert.metadata.expiration_date
}

/// Whether the certificate is in force at time `now`: its recorded status is
/// `Active` and it is not past its expiration date.
pub open spec fn valid_at(cert: CertificateDetailsView, now: u64) -> bool {
    cert.status == CertificateStatus::Active && !expired_at(cert, now)
}

/// The verdict on a certificate, or on the lack of one, at time `now`, given
/// the digest that was presented and the outcome of the signature check.
pub open spec fn verdict(
    cert: Option<CertificateDetailsView>,
    metadata_hash: Seq<char>,
    signature_valid: bool,
    now: u64,
) -> VerificationResultView {
    match cert {
        Some(c) => VerificationResultView {
            exists: true,
            is_valid: valid_at(c, now),
            hash_valid: c.metadata_hash == metadata_hash,
            signature_valid,
            status: Some(c.status),
            owner: Some(c.owner),
            issuer: Some(c.issuer),
        },
        None => VerificationResultView {
            exists: false,
            is_valid: false,
            hash_valid: false,
            signature_valid: false,
            status: None,
            owner: None,
            issuer: None,
        },
    }
}

/// The view of an optional certificate.
pub open spec fn details_of(cert: Option<&CertificateDetails>) -> Option<CertificateDetailsView> {
    match cert {
        Some(c) => Some(c@),
        None => None,
    }
}

/// The helpers of the registry. None of them is a value: the type only
/// groups them.
pub struct Utils;

impl Utils {
    /// Whether `cert` is past its expiration date at time `now`.
    pub fn is_certificate_expired(cert: &CertificateDetails, now: u64) -> (b: bool)
        ensures
            b == expired_at(cert@, now),
    {
        if cert.metadata.expiration_date == 0 {
            return false;
        }
        now > cert.metadata.expiration_date
    }

    /// The digest of a certificate's metadata.
    pub fn hash_metadata(cert_id: &String, metadata: &String) -> (digest: [u8; 32])
        ensures
            digest@ == spec_hash_metadata(cert_id@, metadata@),
    {
        let digest: [u8; 32] = [0u8; 32];
        assert(digest@ =~= spec_hash_metadata(cert_id@, metadata@));
        digest
    }

    /// Whether `cert` is in force at time `now`. The recorded status is not
    /// changed by the passing of time: a certificate can be past its
    /// expiration date, and so not valid, while its status still reads
    /// `Active`.
    pub fn is_certificate_valid(cert: &CertificateDetails, now: u64) -> (b: bool)
        ensures
            b == valid_at(cert@, now),
    {
        if cert.status != CertificateStatus::Active {
            return false;
        }
        if Self::is_certificate_expired(cert, now) {
            return false;
        }
        true
    }

    /// The verdict on `cert` at time `now`. `metadata_hash` is the digest
    /// that was presented; `signature_valid` is the outcome of the signature
    /// check, which is made elsewhere and only reported here.
    ///
    /// Without a certificate every boolean is false and every other field is
    /// empty.
    pub fn create_verification_result(
        cert: Option<&CertificateDetails>,
        metadata_hash: &String,
        signature_valid: bool,
        now: u64,
    ) -> (result: VerificationResult)
        ensures
            result@ == verdict(details_of(cert), metadata_hash@, signature_valid, now),
    {
        match cert {
            Some(certificate) => {
                let is_valid = Self::is_certificate_valid(certificate, now);
                let hash_valid = certificate.metadata_hash == *metadata_hash;
                VerificationResult {
                    exists: true,
                    is_valid,
                    hash_valid,
                    signature_valid,
                    status: Some(certificate.status),
                    owner: Some(certificate.owner.clone()),
                    issuer: Some(certificate.issuer.clone()),
                }
            },
            None => VerificationResult {
                exists: false,
                is_valid: false,
                hash_valid: false,
                signature_valid: false,
                status: None,
                owner: None,
                issuer: None,
            },
        }
    }

    /// Returns `s` whole, whatever `max_length` is: the registry shortens no
    /// text, so that what is recorded can be compared with what was given.
    pub fn truncate_string(s: &String, max_length: usize) -> (t: String)
        ensures
            t@ == s@,
    {
        s.clone()
    }

    /// Accepts any metadata but the empty text, which is `InvalidMetadata`.
    pub fn validate_metadata(metadata: &String) -> (r: Result<(), Error>)
        ensures
            r is Ok <==> metadata@.len() > 0,
            r is Err ==> r == Err::<(), Error>(Error::InvalidMetadata),
    {
        if metadata.as_str().is_empty() {
            return Err(Error::InvalidMetadata);
        }
        Ok(())
    }
}

/// The digest of a certificate's metadata.
pub fn hash_metadata(cert_id: &String, metadata: &String) -> (digest: [u8; 32])
    ensures
        digest@ == spec_hash_metadata(cert_id@, metadata@),
{
    Utils::hash_metadata(cert_id, metadata)
}

/// The text under which a digest is recorded.
pub fn bytes_to_string(bytes: &[u8; 32]) -> (s: String)
    ensures
        s@ == spec_bytes_to_string(bytes@),
{
    String::from_str("bytes_hash")
}

} // verus!
