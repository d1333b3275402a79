//! The registry's operations.

use crate::access_control::{permits, roles_in, table_after_grant, AccessControl, Roles};
use crate::errors::Error;
use crate::events::{emit_certificate_issued, emit_status_changed, EventView, Events};
use crate::storage::{
    get_all_certificate_ids, get_certificate, has_certificate, set_admin, set_certificate, Storage,
};
use crate::text_map::{texts_of, TextMap};
use crate::types::{
    clone_text, text_of, CertificateDetails, CertificateDetailsView, CertificateMetadata,
    CertificateMetadataView, CertificateStatus, CertificateType, CertificationAuthority, Principal,
    Role, VerificationResult,
};
use crate::utils::{bytes_to_string, hash_metadata, metadata_hash_text, verdict, Utils};
use vstd::prelude::*;

verus! {

/// What is asked for when a certificate is to be issued.
pub struct IssueRequest {
    pub cert_id: Seq<char>,
    pub owner: Seq<char>,
    pub metadata: Seq<char>,
    pub signature: Seq<u8>,
    pub cert_type: CertificateType,
    pub expiration_date: u64,
}

/// The record that `issuer` makes at time `now` for a request: active, at
/// version 1, without a revocation reason, titled by its identifier and
/// described by the metadata given.
pub open spec fn issued_record(request: IssueRequest, issuer: Seq<char>, now: u64) -> CertificateDetailsView {
    CertificateDetailsView {
        owner: request.owner,
        issuer,
        metadata_hash: metadata_hash_text(request.cert_id, request.metadata),
        metadata: CertificateMetadataView {
            title: request.cert_id,
            description: request.metadata,
            issue_date: now,
            expiration_date: request.expiration_date,
            cert_type: request.cert_type,
            custom_fields: Seq::empty(),
        },
        status: CertificateStatus::Active,
        signature: request.signature,
        version: 1,
        revocation_reason: None,
        last_updated: now,
    }
}

/// The notice of an issuance.
pub open spec fn issued_notice(request: IssueRequest, issuer: Seq<char>) -> EventView {
    EventView::CertificateIssued {
        cert_id: request.cert_id,
        owner: request.owner,
        issuer,
        cert_type: request.cert_type,
    }
}

/// A record after its status is set to `status` at time `now`. The reason
/// given is recorded when the new status is `Revoked`; with any other status
/// it is ignored, and the reason recorded before stays.
pub open spec fn status_updated(
    record: CertificateDetailsView,
    status: CertificateStatus,
    reason: Option<Seq<char>>,
    now: u64,
) -> CertificateDetailsView {
    CertificateDetailsView {
        status,
        revocation_reason: if status == CertificateStatus::Revoked {
            reason
        } else {
            record.revocation_reason
        },
        last_updated: now,
        ..record
    }
}

/// A record after its metadata is replaced at time `now`: the description,
/// the digest and the signature are new, and the version is one more.
pub open spec fn metadata_updated(
    record: CertificateDetailsView,
    cert_id: Seq<char>,
    metadata: Seq<char>,
    signature: Seq<u8>,
    now: u64,
) -> CertificateDetailsView {
    CertificateDetailsView {
        metadata_hash: metadata_hash_text(cert_id, metadata),
        metadata: CertificateMetadataView { description: metadata, ..record.metadata },
        signature,
        version: (record.version + 1) as u32,
        last_updated: now,
        ..record
    }
}

/// How `initialize` ends on a store.
pub open spec fn initialize_outcome(store: &Storage) -> Result<(), Error> {
    if store.admin is Some {
        Err(Error::AlreadyInitialized)
    } else {
        Ok(())
    }
}

/// How an operation ends that asks for the capability of an issuer and for
/// an identifier that is still free.
pub open spec fn issue_outcome(store: &Storage, caller: Seq<char>, cert_id: Seq<char>) -> Result<(), Error> {
    if !permits(store, caller, Role::Issuer) {
        Err(Error::Unauthorized)
    } else if store.certs().contains_key(cert_id) {
        Err(Error::CertificateAlreadyExists)
    } else {
        Ok(())
    }
}

/// How an operation ends that asks for the capability of an issuer and for
/// an identifier under which a certificate is recorded.
pub open spec fn update_outcome(store: &Storage, caller: Seq<char>, cert_id: Seq<char>) -> Result<(), Error> {
    if !permits(store, caller, Role::Issuer) {
        Err(Error::Unauthorized)
    } else if !store.certs().contains_key(cert_id) {
        Err(Error::CertificateNotFound)
    } else {
        Ok(())
    }
}

/// How the adding of a certification authority ends: it asks for the
/// capability of a manager of authorities and for a principal that has no
/// authority yet.
pub open spec fn add_authority_outcome(store: &Storage, caller: Seq<char>, address: Seq<char>) -> Result<
    (),
    Error,
> {
    if !permits(store, caller, Role::AuthorityManager) {
        Err(Error::Unauthorized)
    } else if store.authority_table().contains_key(address) {
        Err(Error::AuthorityAlreadyExists)
    } else {
        Ok(())
    }
}

/// How the updating of a certification authority ends: it asks for the
/// capability of a manager of authorities and for a principal that has an
/// authority.
pub open spec fn update_authority_outcome(store: &Storage, caller: Seq<char>, address: Seq<char>) -> Result<
    (),
    Error,
> {
    if !permits(store, caller, Role::AuthorityManager) {
        Err(Error::Unauthorized)
    } else if !store.authority_table().contains_key(address) {
        Err(Error::AuthorityNotFound)
    } else {
        Ok(())
    }
}

/// The notices after `role` is granted to `p` by `by`, where `table` held the
/// roles before: one more where `p` did not hold the role.
pub open spec fn notices_after_grant(
    notices: Seq<EventView>,
    table: Map<Seq<char>, Seq<Role>>,
    p: Seq<char>,
    role: Role,
    by: Seq<char>,
) -> Seq<EventView> {
    if roles_in(table, p).contains(role) {
        notices
    } else {
        notices.push((EventView::RoleGranted { address: p, role, granted_by: by }))
    }
}

/// The test that keeps the identifiers of the certificates of `owner`.
pub open spec fn owned_by(certs: Map<Seq<char>, CertificateDetailsView>, owner: Seq<char>) -> spec_fn(
    Seq<char>,
) -> bool {
    |id: Seq<char>| certs.contains_key(id) && certs[id].owner == owner
}

/// The certificate recorded under `cert_id`, if there is one.
pub open spec fn lookup(store: &Storage, cert_id: Seq<char>) -> Option<CertificateDetailsView> {
    if store.certs().contains_key(cert_id) {
        Some(store.certs()[cert_id])
    } else {
        None
    }
}

/// The certificates and the notices in the course of a batch, with the
/// identifiers that could not be issued so far.
pub struct BatchState {
    pub certs: Map<Seq<char>, CertificateDetailsView>,
    pub ids: Seq<Seq<char>>,
    pub notices: Seq<EventView>,
    pub failed: Seq<Seq<char>>,
}

/// One request of a batch, made by `issuer` at time `now`. Where the
/// identifier is taken the request fails: the identifier joins the failed
/// ones and nothing else changes. Otherwise the certificate is issued.
pub open spec fn batch_step(state: BatchState, request: IssueRequest, issuer: Seq<char>, now: u64) -> BatchState {
    if state.certs.contains_key(request.cert_id) {
        BatchState { failed: state.failed.push(request.cert_id), ..state }
    } else {
        BatchState {
            certs: state.certs.insert(request.cert_id, issued_record(request, issuer, now)),
            ids: state.ids.push(request.cert_id),
            notices: state.notices.push(issued_notice(request, issuer)),
            failed: state.failed,
        }
    }
}

/// The state after the requests are made one by one, in their order, from
/// `start`. A request that fails stops nothing: those before it stay issued
/// and those after it are still tried.
pub open spec fn batch_after(start: BatchState, requests: Seq<IssueRequest>, issuer: Seq<char>, now: u64) -> BatchState
    decreases requests.len(),
{
    if requests.len() == 0 {
        start
    } else {
        batch_step(batch_after(start, requests.drop_last(), issuer, now), requests.last(), issuer, now)
    }
}

/// The requests that the columns of a batch spell out, row by row.
pub open spec fn batch_requests(
    cert_ids: Seq<String>,
    owners: Seq<Principal>,
    metadatas: Seq<String>,
    signatures: Seq<[u8; 64]>,
    cert_types: Seq<CertificateType>,
    expiration_dates: Seq<u64>,
) -> Seq<IssueRequest> {
    Seq::new(
        cert_ids.len(),
        |i: int|
            IssueRequest {
                cert_id: cert_ids[i]@,
                owner: owners[i]@,
                metadata: metadatas[i]@,
                signature: signatures[i]@,
                cert_type: cert_types[i],
                expiration_date: expiration_dates[i],
            },
    )
}

/// Whether a batch is let in: `Unauthorized` where the caller does not pass
/// the check for issuers, `InvalidMetadata` where the columns differ in
/// length.
pub open spec fn batch_admission(store: &Storage, caller: Seq<char>, columns_agree: bool) -> Result<(), Error> {
    if !permits(store, caller, Role::Issuer) {
        Err(Error::Unauthorized)
    } else if !columns_agree {
        Err(Error::InvalidMetadata)
    } else {
        Ok(())
    }
}

/// The registry's operations. None of them is a value: the type only groups
/// them.
pub struct SuperCertificationContract;

impl SuperCertificationContract {
    /// Records `authority` as the administrator and grants it the roles
    /// `Admin` and `Issuer`. This works once: while an administrator is
    /// recorded the call fails with `AlreadyInitialized`, whoever makes it,
    /// and changes nothing.
    pub fn initialize(store: &mut Storage, events: &mut Events, authority: &Principal) -> (r: Result<
        (),
        Error,
    >)
        requires
            old(store).wf(),
        ensures
            final(store).wf(),
            old(store).roles_distinct() ==> final(store).roles_distinct(),
            r == initialize_outcome(old(store)),
            r is Err ==> *final(store) == *old(store) && final(events)@ == old(events)@,
            r is Ok ==> {
                let first = table_after_grant(old(store).role_table(), authority@, Role::Admin);
                &&& final(store).admin_id() == Some(authority@)
                &&& final(store).holds(authority@, Role::Admin)
                &&& final(store).holds(authority@, Role::Issuer)
                &&& final(store).role_table() == table_after_grant(first, authority@, Role::Issuer)
                &&& final(events)@ == notices_after_grant(
                    notices_after_grant(
                        old(events)@,
                        old(store).role_table(),
                        authority@,
                        Role::Admin,
                        authority@,
                    ),
                    first,
                    authority@,
                    Role::Issuer,
                    authority@,
                )
                &&& final(store).certificates == old(store).certificates
                &&& final(store).authorities == old(store).authorities
                &&& final(store).version == old(store).version
            },
    {
        if store.has_admin() {
            return Err(Error::AlreadyInitialized);
        }
        set_admin(store, authority);
        match AccessControl::grant_role(store, events, authority, authority, &Roles::ADMIN) {
            Ok(()) => {},
            Err(e) => {
                return Err(e);
            },
        }
        let ghost first = store.role_table();
        match AccessControl::grant_role(store, events, authority, authority, &Roles::ISSUER) {
            Ok(()) => {},
            Err(e) => {
                return Err(e);
            },
        }
        proof {
            let held = roles_in(first, authority@);
            assert(held.contains(Role::Admin));
            let i = choose|i: int| 0 <= i < held.len() && held[i] == Role::Admin;
            if !held.contains(Role::Issuer) {
                assert(held.push(Role::Issuer)[i] == Role::Admin);
            }
        }
        Ok(())
    }

    fn record_certificate(
        store: &mut Storage,
        events: &mut Events,
        issuer: &Principal,
        now: u64,
        cert_id: &String,
        owner: &Principal,
        metadata: &String,
        signature: [u8; 64],
        cert_type: CertificateType,
        expiration_date: u64,
    ) -> (r: Result<(), Error>)
        requires
            old(store).wf(),
        ensures
            final(store).wf(),
            r is Err <==> old(store).certs().contains_key(cert_id@),
            r is Err ==> r == Err::<(), Error>(Error::CertificateAlreadyExists) && *final(store) == *old(
                store,
            ) && final(events)@ == old(events)@,
            r is Ok ==> {
                let request = IssueRequest {
                    cert_id: cert_id@,
                    owner: owner@,
                    metadata: metadata@,
                    signature: signature@,
                    cert_type,
                    expiration_date,
                };
                &&& final(store).certs() == old(store).certs().insert(
                    cert_id@,
                    issued_record(request, issuer@, now),
                )
                &&& final(store).cert_ids() == old(store).cert_ids().push(cert_id@)
                &&& final(events)@ == old(events)@.push(issued_notice(request, issuer@))
                &&& final(store).admin == old(store).admin
                &&& final(store).authorities == old(store).authorities
                &&& final(store).roles == old(store).roles
                &&& final(store).version == old(store).version
            },
    {
        if has_certificate(store, cert_id) {
            return Err(Error::CertificateAlreadyExists);
        }
        let metadata_obj = CertificateMetadata {
            title: cert_id.clone(),
            description: metadata.clone(),
            issue_date: now,
            expiration_date,
            cert_type,
            custom_fields: Vec::new(),
        };
        let cert_details = CertificateDetails {
            owner: owner.clone(),
            issuer: issuer.clone(),
            metadata_hash: bytes_to_string(&hash_metadata(cert_id, metadata)),
            metadata: metadata_obj,
            status: CertificateStatus::Active,
            signature,
            version: 1,
            revocation_reason: None,
            last_updated: now,
        };
        proof {
            assert(cert_details@.metadata.custom_fields =~= Seq::empty());
        }
        set_certificate(store, cert_id, &cert_details);
        emit_certificate_issued(events, cert_id, owner, issuer, &cert_type);
        Ok(())
    }

    /// Issues a certificate under `cert_id` to `owner`, at time `now`.
    ///
    /// The caller must pass the check for issuers, else the call fails with
    /// `Unauthorized`. An identifier under which a certificate is recorded
    /// makes it fail with `CertificateAlreadyExists`. A call that fails
    /// changes nothing.
    ///
    /// The issuer recorded is the caller: no argument can name another.
    pub fn issue_certificate(
        store: &mut Storage,
        events: &mut Events,
        caller: &Principal,
        now: u64,
        cert_id: &String,
        owner: &Principal,
        metadata: &String,
        signature: [u8; 64],
        cert_type: CertificateType,
        expiration_date: u64,
    ) -> (r: Result<(), Error>)
        requires
            old(store).wf(),
        ensures
            final(store).wf(),
            r == issue_outcome(old(store), caller@, cert_id@),
            r is Err ==> *final(store) == *old(store) && final(events)@ == old(events)@,
            r is Ok ==> {
                let request = IssueRequest {
                    cert_id: cert_id@,
                    owner: owner@,
                    metadata: metadata@,
                    signature: signature@,
                    cert_type,
                    expiration_date,
                };
                &&& final(store).certs() == old(store).certs().insert(
                    cert_id@,
                    issued_record(request, caller@, now),
                )
                &&& final(store).cert_ids() == old(store).cert_ids().push(cert_id@)
                &&& final(events)@ == old(events)@.push(issued_notice(request, caller@))
                &&& final(store).admin == old(store).admin
                &&& final(store).authorities == old(store).authorities
                &&& final(store).roles == old(store).roles
                &&& final(store).version == old(store).version
            },
    {
        match AccessControl::require_issuer(store, caller) {
            Ok(()) => {},
            Err(e) => {
                return Err(e);
            },
        }
        match Self::record_certificate(
            store,
            events,
            caller,
            now,
            cert_id,
            owner,
            metadata,
            signature,
            cert_type,
            expiration_date,
        ) {
            Ok(()) => Ok(()),
            Err(e) => Err(e),
        }
    }

    /// Sets the status of the certificate `cert_id` to `status`, at time
    /// `now`.
    ///
    /// The caller must pass the check for issuers, else the call fails with
    /// `Unauthorized`. Without a certificate under `cert_id` it fails with
    /// `CertificateNotFound`. A call that fails changes nothing.
    ///
    /// `reason` is recorded as the revocation reason when `status` is
    /// `Revoked`. With any other status it is ignored and the reason recorded
    /// before stays. The version does not change.
    pub fn update_certificate_status(
        store: &mut Storage,
        events: &mut Events,
        caller: &Principal,
        now: u64,
        cert_id: &String,
        status: CertificateStatus,
        reason: Option<String>,
    ) -> (r: Result<(), Error>)
        requires
            old(store).wf(),
        ensures
            final(store).wf(),
            r == update_outcome(old(store), caller@, cert_id@),
            r is Err ==> *final(store) == *old(store) && final(events)@ == old(events)@,
            r is Ok ==> {
                let before = old(store).certs()[cert_id@];
                &&& final(store).certs() == old(store).certs().insert(
                    cert_id@,
                    status_updated(before, status, text_of(reason), now),
                )
                &&& final(store).cert_ids() == old(store).cert_ids()
                &&& final(events)@ == old(events)@.push(
                    (EventView::StatusChanged {
                        cert_id: cert_id@,
                        old_status: before.status,
                        new_status: status,
                        changed_by: caller@,
                    }),
                )
                &&& final(store).admin == old(store).admin
                &&& final(store).authorities == old(store).authorities
                &&& final(store).roles == old(store).roles
                &&& final(store).version == old(store).version
            },
    {
        match AccessControl::require_issuer(store, caller) {
            Ok(()) => {},
            Err(e) => {
                return Err(e);
            },
        }
        if !has_certificate(store, cert_id) {
            return Err(Error::CertificateNotFound);
        }
        let mut certificate = get_certificate(store, cert_id);
        let old_status = certificate.status;
        certificate.status = status;
        if status == CertificateStatus::Revoked {
            certificate.revocation_reason = clone_text(&reason);
        }
        certificate.last_updated = now;
        set_certificate(store, cert_id, &certificate);
        emit_status_changed(events, cert_id, &old_status, &status, caller);
        Ok(())
    }

    /// Replaces the metadata of the certificate `cert_id`, at time `now`:
    /// the description, the digest and the signature are new, and the
    /// version is one more. The status does not change, and no notice is
    /// given.
    ///
    /// The caller must pass the check for issuers, else the call fails with
    /// `Unauthorized`. Without a certificate under `cert_id` it fails with
    /// `CertificateNotFound`. A call that fails changes nothing.
    ///
    /// The version is a `u32`: the call is for certificates whose version
    /// can still grow.
    pub fn update_certificate_metadata(
        store: &mut Storage,
        caller: &Principal,
        now: u64,
        cert_id: &String,
        metadata: &String,
        signature: [u8; 64],
    ) -> (r: Result<(), Error>)
        requires
            old(store).wf(),
            old(store).certs().contains_key(cert_id@) ==> old(store).certs()[cert_id@].version
                < u32::MAX,
        ensures
            final(store).wf(),
            r == update_outcome(old(store), caller@, cert_id@),
            r is Err ==> *final(store) == *old(store),
            r is Ok ==> {
                &&& final(store).certs() == old(store).certs().insert(
                    cert_id@,
                    metadata_updated(old(store).certs()[cert_id@], cert_id@, metadata@, signature@, now),
                )
                &&& final(store).cert_ids() == old(store).cert_ids()
                &&& final(store).admin == old(store).admin
                &&& final(store).authorities == old(store).authorities
                &&& final(store).roles == old(store).roles
                &&& final(store).version == old(store).version
            },
    {
        match AccessControl::require_issuer(store, caller) {
            Ok(()) => {},
            Err(e) => {
                return Err(e);
            },
        }
        if !has_certificate(store, cert_id) {
            return Err(Error::CertificateNotFound);
        }
        let mut certificate = get_certificate(store, cert_id);
        let metadata_hash = bytes_to_string(&hash_metadata(cert_id, metadata));
        certificate.metadata.description = metadata.clone();
        certificate.metadata_hash = metadata_hash;
        certificate.signature = signature;
        certificate.version += 1;
        certificate.last_updated = now;
        set_certificate(store, cert_id, &certificate);
        Ok(())
    }

    /// Issues a batch of certificates at time `now`. Row `i` of the batch is
    /// made of entry `i` of each column.
    ///
    /// The caller must pass the check for issuers, else the call fails with
    /// `Unauthorized`; the check is passed once for the whole batch. Columns
    /// that differ in length make it fail with `InvalidMetadata`. A call
    /// that fails changes nothing.
    ///
    /// Otherwise the rows are taken in their order. A row whose identifier
    /// is taken, by a certificate recorded before the call or by an earlier
    /// row, is not issued, and the call goes on: the rows before it stay
    /// issued and the rows after it are tried. The call returns the
    /// identifiers of the rows that were not issued, in the order of the
    /// rows; an empty list says that every row was issued.
    pub fn batch_issue_certificates(
        store: &mut Storage,
        events: &mut Events,
        caller: &Principal,
        now: u64,
        cert_ids: &Vec<String>,
        owners: &Vec<Principal>,
        metadatas: &Vec<String>,
        signatures: &Vec<[u8; 64]>,
        cert_types: &Vec<CertificateType>,
        expiration_dates: &Vec<u64>,
    ) -> (r: Result<Vec<String>, Error>)
        requires
            old(store).wf(),
        ensures
            final(store).wf(),
            match r {
                Ok(failed) => {
                    let end = batch_after(
                        (BatchState {
                            certs: old(store).certs(),
                            ids: old(store).cert_ids(),
                            notices: old(events)@,
                            failed: Seq::empty(),
                        }),
                        batch_requests(
                            cert_ids@,
                            owners@,
                            metadatas@,
                            signatures@,
                            cert_types@,
                            expiration_dates@,
                        ),
                        caller@,
                        now,
                    );
                    &&& batch_admission(
                        old(store),
                        caller@,
                        owners.len() == cert_ids.len() && metadatas.len() == cert_ids.len()
                            && signatures.len() == cert_ids.len() && cert_types.len()
                            == cert_ids.len() && expiration_dates.len() == cert_ids.len(),
                    ) is Ok
                    &&& final(store).certs() == end.certs
                    &&& final(store).cert_ids() == end.ids
                    &&& final(events)@ == end.notices
                    &&& texts_of(failed@) == end.failed
                    &&& final(store).admin == old(store).admin
                    &&& final(store).authorities == old(store).authorities
                    &&& final(store).roles == old(store).roles
                    &&& final(store).version == old(store).version
                },
                Err(e) => {
                    &&& batch_admission(
                        old(store),
                        caller@,
                        owners.len() == cert_ids.len() && metadatas.len() == cert_ids.len()
                            && signatures.len() == cert_ids.len() && cert_types.len()
                            == cert_ids.len() && expiration_dates.len() == cert_ids.len(),
                    ) == Err::<(), Error>(e)
                    &&& *final(store) == *old(store)
                    &&& final(events)@ == old(events)@
                },
            },
    {
        match AccessControl::require_issuer(store, caller) {
            Ok(()) => {},
            Err(e) => {
                return Err(e);
            },
        }
        let count = cert_ids.len();
        if owners.len() != count || metadatas.len() != count || signatures.len() != count
            || cert_types.len() != count || expiration_dates.len() != count {
            return Err(Error::InvalidMetadata);
        }
        let ghost start = BatchState {
            certs: store.certs(),
            ids: store.cert_ids(),
            notices: events@,
            failed: Seq::empty(),
        };
        let ghost requests = batch_requests(
            cert_ids@,
            owners@,
            metadatas@,
            signatures@,
            cert_types@,
            expiration_dates@,
        );
        let mut failed_certs: Vec<String> = Vec::new();
        proof {
            assert(requests.take(0).len() == 0);
            assert(texts_of(failed_certs@) =~= Seq::<Seq<char>>::empty());
        }
        let mut i: usize = 0;
        while i < count
            invariant
                store.wf(),
                i <= count,
                count == cert_ids.len(),
                owners.len() == count,
                metadatas.len() == count,
                signatures.len() == count,
                cert_types.len() == count,
                expiration_dates.len() == count,
                requests == batch_requests(
                    cert_ids@,
                    owners@,
                    metadatas@,
                    signatures@,
                    cert_types@,
                    expiration_dates@,
                ),
                batch_after(start, requests.take(i as int), caller@, now) == (BatchState {
                    certs: store.certs(),
                    ids: store.cert_ids(),
                    notices: events@,
                    failed: texts_of(failed_certs@),
                }),
                store.admin == old(store).admin,
                store.authorities == old(store).authorities,
                store.roles == old(store).roles,
                store.version == old(store).version,
            decreases count - i,
        {
            proof {
                let next = requests.take(i + 1);
                assert(next.drop_last() =~= requests.take(i as int));
                assert(next.last() == requests[i as int]);
            }
            let ghost failed_before = texts_of(failed_certs@);
            let result = Self::record_certificate(
                store,
                events,
                caller,
                now,
                &cert_ids[i],
                &owners[i],
                &metadatas[i],
                signatures[i],
                cert_types[i],
                expiration_dates[i],
            );
            if result.is_err() {
                failed_certs.push(cert_ids[i].clone());
                assert(texts_of(failed_certs@) =~= failed_before.push(cert_ids[i as int]@));
            }
            i += 1;
        }
        assert(requests.take(count as int) =~= requests);
        Ok(failed_certs)
    }

    /// The identifiers of the certificates of `owner`, in the order in which
    /// the store is walked. Anybody may ask.
    pub fn list_certificates_by_owner(store: &Storage, owner: &Principal) -> (ids: Vec<String>)
        requires
            store.wf(),
        ensures
            texts_of(ids@) == store.cert_ids().filter(owned_by(store.certs(), owner@)),
    {
        let mut ids: Vec<String> = Vec::new();
        proof {
            reveal_with_fuel(Seq::filter, 1);
            assert(texts_of(ids@) =~= Seq::<Seq<char>>::empty());
            assert(store.cert_ids().take(0).len() == 0);
        }
        match &store.certificates {
            Some(m) => {
                let n = m.len();
                let mut i: usize = 0;
                while i < n
                    invariant
                        m.wf(),
                        store.certificates == Some(*m),
                        n == m.keys().len(),
                        i <= n,
                        texts_of(ids@) == m.keys().take(i as int).filter(owned_by(m@, owner@)),
                    decreases n - i,
                {
                    let certificate = m.value_at(i);
                    proof {
                        reveal_with_fuel(Seq::filter, 1);
                        let next = m.keys().take(i + 1);
                        assert(next.drop_last() =~= m.keys().take(i as int));
                        assert(next.last() == m.keys()[i as int]);
                    }
                    let ghost before = texts_of(ids@);
                    if certificate.owner.id == owner.id {
                        ids.push(m.key_at(i).clone());
                        assert(texts_of(ids@) =~= before.push(m.keys()[i as int]));
                    }
                    i += 1;
                }
                assert(m.keys().take(n as int) =~= m.keys());
            },
            None => {},
        }
        ids
    }

    /// The identifiers of all certificates, in the order in which the store
    /// is walked. The caller must pass the check for administrators, else the
    /// call fails with `Unauthorized`.
    pub fn list_certificates(store: &Storage, caller: &Principal) -> (r: Result<Vec<String>, Error>)
        requires
            store.wf(),
        ensures
            match r {
                Ok(ids) => store.holds(caller@, Role::Admin) && texts_of(ids@) == store.cert_ids(),
                Err(e) => e == Error::Unauthorized && !store.holds(caller@, Role::Admin),
            },
    {
        match AccessControl::require_admin(store, caller) {
            Ok(()) => {},
            Err(e) => {
                return Err(e);
            },
        }
        Ok(get_all_certificate_ids(store))
    }

    /// Records the certification authority `authority` for the principal
    /// that it names.
    ///
    /// The caller must pass the check for managers of certification
    /// authorities, else the call fails with `Unauthorized`. A principal for
    /// which an authority is recorded makes it fail with
    /// `AuthorityAlreadyExists`. A call that fails changes nothing.
    pub fn add_authority(
        store: &mut Storage,
        events: &mut Events,
        caller: &Principal,
        authority: &CertificationAuthority,
    ) -> (r: Result<(), Error>)
        requires
            old(store).wf(),
        ensures
            final(store).wf(),
            r == add_authority_outcome(old(store), caller@, authority.address@),
            r is Err ==> *final(store) == *old(store) && final(events)@ == old(events)@,
            r is Ok ==> {
                &&& final(store).authority_table() == old(store).authority_table().insert(
                    authority.address@,
                    authority@,
                )
                &&& final(events)@ == old(events)@.push(
                    (EventView::AuthorityAdded { authority: authority.address@, added_by: caller@ }),
                )
                &&& final(store).admin == old(store).admin
                &&& final(store).certificates == old(store).certificates
                &&& final(store).roles == old(store).roles
                &&& final(store).version == old(store).version
            },
    {
        match AccessControl::require_auth_manager(store, caller) {
            Ok(()) => {},
            Err(e) => {
                return Err(e);
            },
        }
        let known = match &store.authorities {
            Some(table) => table.contains_key(&authority.address.id),
            None => false,
        };
        if known {
            return Err(Error::AuthorityAlreadyExists);
        }
        let mut table = match store.authorities.take() {
            Some(table) => table,
            None => TextMap::new(),
        };
        table.set(authority.address.id.clone(), authority.clone());
        store.authorities = Some(table);
        events.authority_added(&authority.address, caller);
        Ok(())
    }

    /// Replaces the certification authority recorded for the principal that
    /// `authority` names.
    ///
    /// The caller must pass the check for managers of certification
    /// authorities, else the call fails with `Unauthorized`. A principal for
    /// which no authority is recorded makes it fail with
    /// `AuthorityNotFound`. A call that fails changes nothing.
    pub fn update_authority(
        store: &mut Storage,
        events: &mut Events,
        caller: &Principal,
        authority: &CertificationAuthority,
    ) -> (r: Result<(), Error>)
        requires
            old(store).wf(),
        ensures
            final(store).wf(),
            r == update_authority_outcome(old(store), caller@, authority.address@),
            r is Err ==> *final(store) == *old(store) && final(events)@ == old(events)@,
            r is Ok ==> {
                &&& final(store).authority_table() == old(store).authority_table().insert(
                    authority.address@,
                    authority@,
                )
                &&& final(events)@ == old(events)@.push(
                    (EventView::AuthorityUpdated { authority: authority.address@, updated_by: caller@ }),
                )
                &&& final(store).admin == old(store).admin
                &&& final(store).certificates == old(store).certificates
                &&& final(store).roles == old(store).roles
                &&& final(store).version == old(store).version
            },
    {
        match AccessControl::require_auth_manager(store, caller) {
            Ok(()) => {},
            Err(e) => {
                return Err(e);
            },
        }
        let known = match &store.authorities {
            Some(table) => table.contains_key(&authority.address.id),
            None => false,
        };
        if !known {
            return Err(Error::AuthorityNotFound);
        }
        let mut table = match store.authorities.take() {
            Some(table) => table,
            None => TextMap::new(),
        };
        table.set(authority.address.id.clone(), authority.clone());
        store.authorities = Some(table);
        events.authority_updated(&authority.address, caller);
        Ok(())
    }

    /// A copy of the certification authority recorded for `address`;
    /// `AuthorityNotFound` where there is none. Anybody may ask.
    pub fn get_authority(store: &Storage, address: &Principal) -> (r: Result<CertificationAuthority, Error>)
        requires
            store.wf(),
        ensures
            match r {
                Ok(a) => store.authority_table().contains_key(address@) && a@
                    == store.authority_table()[address@],
                Err(e) => e == Error::AuthorityNotFound && !store.authority_table().contains_key(
                    address@,
                ),
            },
    {
        match &store.authorities {
            Some(table) => match table.get(&address.id) {
                Some(a) => Ok(a.clone()),
                None => Err(Error::AuthorityNotFound),
            },
            None => Err(Error::AuthorityNotFound),
        }
    }

    /// The verdict on the certificate `cert_id` at time `now`, or on the lack
    /// of one. `metadata_hash` is the digest presented; `signature_valid` is
    /// the outcome of the signature check, which the host makes. Anybody may
    /// ask, and nothing changes.
    pub fn verify_certificate(
        store: &Storage,
        cert_id: &String,
        metadata_hash: &String,
        signature_valid: bool,
        now: u64,
    ) -> (result: VerificationResult)
        requires
            store.wf(),
        ensures
            result@ == verdict(lookup(store, cert_id@), metadata_hash@, signature_valid, now),
    {
        if has_certificate(store, cert_id) {
            let certificate = get_certificate(store, cert_id);
            Utils::create_verification_result(Some(&certificate), metadata_hash, signature_valid, now)
        } else {
            Utils::create_verification_result(None, metadata_hash, signature_valid, now)
        }
    }

    /// A copy of the certificate recorded under `cert_id`;
    /// `CertificateNotFound` where there is none. Anybody may ask.
    pub fn get_certificate_details(store: &Storage, cert_id: &String) -> (r: Result<
        CertificateDetails,
        Error,
    >)
        requires
            store.wf(),
        ensures
            match r {
                Ok(c) => lookup(store, cert_id@) == Some(c@),
                Err(e) => e == Error::CertificateNotFound && lookup(store, cert_id@) is None,
            },
    {
        if !has_certificate(store, cert_id) {
            return Err(Error::CertificateNotFound);
        }
        Ok(get_certificate(store, cert_id))
    }
}

} // verus!
