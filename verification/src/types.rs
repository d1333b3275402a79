//! The data that the registry records and reports.
//!
//! Every type that holds text has a view: the same value with each text taken
//! as its sequence of characters. Contracts speak of views, so that two values
//! holding the same text count as the same value.

use vstd::prelude::*;

verus! {

/// An actor: an owner, an issuer, an authority or a holder of roles. Nothing
/// is assumed of a principal but that two of them can be told apart; its view
/// is the text of its identifier.
#[derive(Debug, Eq)]
pub struct Principal {
    /// The identifier, as the host writes it.
    pub id: String,
}

impl View for Principal {
    type V = Seq<char>;

    open spec fn view(&self) -> Seq<char> {
        self.id@
    }
}

impl Principal {
    /// The principal with the given identifier.
    pub fn new(id: &str) -> (p: Principal)
        ensures
            p@ == id@,
    {
        Principal { id: String::from_str(id) }
    }
}

impl Clone for Principal {
    fn clone(&self) -> (p: Principal)
        ensures
            p@ == self@,
    {
        Principal { id: self.id.clone() }
    }
}

impl PartialEq for Principal {
    fn eq(&self, other: &Principal) -> (b: bool) {
        self.id == other.id
    }
}

impl vstd::std_specs::cmp::PartialEqSpecImpl for Principal {
    open spec fn obeys_eq_spec() -> bool {
        true
    }

    open spec fn eq_spec(&self, other: &Principal) -> bool {
        self.id@ == other.id@
    }
}

/// A capability that a principal can hold.
#[derive(Copy, Clone, Debug, PartialEq, Eq, Structural)]
pub enum Role {
    /// Full access: an administrator passes every narrower check.
    Admin,
    /// May issue and update certificates.
    Issuer,
    /// May verify certificates.
    Verifier,
    /// May revoke certificates.
    Revoker,
    /// May manage certification authorities.
    AuthorityManager,
}

/// The kinds of certificate.
#[derive(Copy, Clone, Debug, PartialEq, Eq, Structural)]
pub enum CertificateType {
    /// Standard certificate.
    Standard,
    /// Professional qualification.
    Professional,
    /// Academic degree.
    Academic,
    /// Technical certification.
    Technical,
    /// Membership certificate.
    Membership,
    /// Any other kind.
    Custom,
}

/// The recorded status of a certificate. It changes only by an explicit
/// update: a certificate past its expiration date keeps the status `Active`
/// until somebody sets another.
#[derive(Copy, Clone, Debug, PartialEq, Eq, Structural)]
pub enum CertificateStatus {
    /// In force.
    Active,
    /// Withdrawn for good.
    Revoked,
    /// Marked as expired.
    Expired,
    /// Withdrawn for a time.
    Suspended,
}

/// The text of an optional string.
pub open spec fn text_of(t: Option<String>) -> Option<Seq<char>> {
    match t {
        Some(s) => Some(s@),
        None => None,
    }
}

/// The texts of a list of named fields, in the order of the list.
pub open spec fn fields_of(fields: Seq<(String, String)>) -> Seq<(Seq<char>, Seq<char>)> {
    Seq::new(fields.len(), |i: int| (fields[i].0@, fields[i].1@))
}

/// A copy of an optional string.
pub fn clone_text(t: &Option<String>) -> (c: Option<String>)
    ensures
        text_of(c) == text_of(*t),
{
    match t {
        Some(s) => Some(s.clone()),
        None => None,
    }
}

/// A copy of a list of named fields.
pub fn clone_fields(fields: &Vec<(String, String)>) -> (c: Vec<(String, String)>)
    ensures
        fields_of(c@) == fields_of(fields@),
{
    let mut c: Vec<(String, String)> = Vec::new();
    let mut i: usize = 0;
    while i < fields.len()
        invariant
            i <= fields.len(),
            c.len() == i,
            forall|j: int| 0 <= j < i ==> c[j].0@ == fields[j].0@ && c[j].1@ == fields[j].1@,
        decreases fields.len() - i,
    {
        let name = fields[i].0.clone();
        let value = fields[i].1.clone();
        c.push((name, value));
        i += 1;
    }
    assert(fields_of(c@) =~= fields_of(fields@));
    c
}

/// A body that vouches for certificates.
#[derive(Debug, PartialEq, Eq)]
pub struct CertificationAuthority {
    /// The authority's name.
    pub name: String,
    /// The principal that acts for the authority.
    pub address: Principal,
    /// The key against which the authority's signatures are checked.
    pub verification_key: [u8; 32],
    /// Whether the authority is active.
    pub is_active: bool,
}

/// The view of a [`CertificationAuthority`].
pub struct CertificationAuthorityView {
    pub name: Seq<char>,
    pub address: Seq<char>,
    pub verification_key: Seq<u8>,
    pub is_active: bool,
}

impl View for CertificationAuthority {
    type V = CertificationAuthorityView;

    open spec fn view(&self) -> CertificationAuthorityView {
        CertificationAuthorityView {
            name: self.name@,
            address: self.address@,
            verification_key: self.verification_key@,
            is_active: self.is_active,
        }
    }
}

impl Clone for CertificationAuthority {
    fn clone(&self) -> (c: CertificationAuthority)
        ensures
            c@ == self@,
    {
        CertificationAuthority {
            name: self.name.clone(),
            address: self.address.clone(),
            verification_key: self.verification_key,
            is_active: self.is_active,
        }
    }
}

/// What a certificate says of itself.
#[derive(Debug, PartialEq, Eq)]
pub struct CertificateMetadata {
    /// The title.
    pub title: String,
    /// The description.
    pub description: String,
    /// When the certificate was issued, in seconds since the Unix epoch.
    pub issue_date: u64,
    /// When the certificate expires, in seconds since the Unix epoch; 0 for a
    /// certificate that never expires.
    pub expiration_date: u64,
    /// The kind of certificate.
    pub cert_type: CertificateType,
    /// Further named fields.
    pub custom_fields: Vec<(String, String)>,
}

/// The view of a [`CertificateMetadata`].
pub struct CertificateMetadataView {
    pub title: Seq<char>,
    pub description: Seq<char>,
    pub issue_date: u64,
    pub expiration_date: u64,
    pub cert_type: CertificateType,
    pub custom_fields: Seq<(Seq<char>, Seq<char>)>,
}

impl View for CertificateMetadata {
    type V = CertificateMetadataView;

    open spec fn view(&self) -> CertificateMetadataView {
        CertificateMetadataView {
            title: self.title@,
            description: self.description@,
            issue_date: self.issue_date,
            expiration_date: self.expiration_date,
            cert_type: self.cert_type,
            custom_fields: fields_of(self.custom_fields@),
        }
    }
}

impl Clone for CertificateMetadata {
    fn clone(&self) -> (c: CertificateMetadata)
        ensures
            c@ == self@,
    {
        CertificateMetadata {
            title: self.title.clone(),
            description: self.description.clone(),
            issue_date: self.issue_date,
            expiration_date: self.expiration_date,
            cert_type: self.cert_type,
            custom_fields: clone_fields(&self.custom_fields),
        }
    }
}

/// The record of one certificate.
#[derive(Debug, PartialEq, Eq)]
pub struct CertificateDetails {
    /// The principal that the certificate was issued to.
    pub owner: Principal,
    /// The principal that issued the certificate.
    pub issuer: Principal,
    /// The digest of the metadata, as text.
    pub metadata_hash: String,
    /// The metadata.
    pub metadata: CertificateMetadata,
    /// The recorded status.
    pub status: CertificateStatus,
    /// The issuer's signature.
    pub signature: [u8; 64],
    /// The version: 1 at issuance, one more with each update of the metadata.
    pub version: u32,
    /// The reason given with the last revocation, if there was one.
    pub revocation_reason: Option<String>,
    /// When the record was last changed, in seconds since the Unix epoch.
    pub last_updated: u64,
}

/// The view of a [`CertificateDetails`].
pub struct CertificateDetailsView {
    pub owner: Seq<char>,
    pub issuer: Seq<char>,
    pub metadata_hash: Seq<char>,
    pub metadata: CertificateMetadataView,
    pub status: CertificateStatus,
    pub signature: Seq<u8>,
    pub version: u32,
    pub revocation_reason: Option<Seq<char>>,
    pub last_updated: u64,
}

impl View for CertificateDetails {
    type V = CertificateDetailsView;

    open spec fn view(&self) -> CertificateDetailsView {
        CertificateDetailsView {
            owner: self.owner@,
            issuer: self.issuer@,
            metadata_hash: self.metadata_hash@,
            metadata: self.metadata@,
            status: self.status,
            signature: self.signature@,
            version: self.version,
            revocation_reason: text_of(self.revocation_reason),
            last_updated: self.last_updated,
        }
    }
}

impl Clone for CertificateDetails {
    fn clone(&self) -> (c: CertificateDetails)
        ensures
            c@ == self@,
    {
        CertificateDetails {
            owner: self.owner.clone(),
            issuer: self.issuer.clone(),
            metadata_hash: self.metadata_hash.clone(),
            metadata: self.metadata.clone(),
            status: self.status,
            signature: self.signature,
            version: self.version,
            revocation_reason: clone_text(&self.revocation_reason),
            last_updated: self.last_updated,
        }
    }
}

/// The verdict on one certificate. The four booleans are independent of each
/// other: a right digest presented for a revoked certificate gives
/// `hash_valid` and not `is_valid`.
#[derive(Debug, PartialEq, Eq)]
pub struct VerificationResult {
    /// Whether a certificate is recorded under the identifier.
    pub exists: bool,
    /// Whether the certificate is active and not past its expiration date.
    pub is_valid: bool,
    /// Whether the digest presented is the recorded one.
    pub hash_valid: bool,
    /// Whether the signature was found valid.
    pub signature_valid: bool,
    /// The recorded status, where the certificate exists.
    pub status: Option<CertificateStatus>,
    /// The owner, where the certificate exists.
    pub owner: Option<Principal>,
    /// The issuer, where the certificate exists.
    pub issuer: Option<Principal>,
}

/// The view of a [`VerificationResult`].
pub struct VerificationResultView {
    pub exists: bool,
    pub is_valid: bool,
    pub hash_valid: bool,
    pub signature_valid: bool,
    pub status: Option<CertificateStatus>,
    pub owner: Option<Seq<char>>,
    pub issuer: Option<Seq<char>>,
}

/// The identifier of an optional principal.
pub open spec fn principal_of(p: Option<Principal>) -> Option<Seq<char>> {
    match p {
        Some(q) => Some(q@),
        None => None,
    }
}

impl View for VerificationResult {
    type V = VerificationResultView;

    open spec fn view(&self) -> VerificationResultView {
        VerificationResultView {
            exists: self.exists,
            is_valid: self.is_valid,
            hash_valid: self.hash_valid,
            signature_valid: self.signature_valid,
            status: self.status,
            owner: principal_of(self.owner),
            issuer: principal_of(self.issuer),
        }
    }
}

} // verus!
