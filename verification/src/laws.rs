//! What holds of the registry's operations taken together. Each law is
//! stated over the spec functions in which the operations' own contracts
//! are written, and proved from them.

use crate::access_control::{
    lemma_filter_others, other_than, permits, roles_in, table_after_grant, table_after_revoke,
};
use crate::contract::{
    batch_after, initialize_outcome, issue_outcome, issued_record, metadata_updated,
    status_updated, BatchState, IssueRequest,
};
use crate::errors::Error;
use crate::storage::{role_lists_distinct, Storage};
use crate::types::{CertificateDetailsView, CertificateStatus, Role};
use crate::utils::{expired_at, valid_at, verdict};
use vstd::prelude::*;

verus! {

/// The registry is initialized once. `before` and `after` are the store
/// around a call of `initialize` that succeeded for `authority`: every later
/// call on `after` fails with `AlreadyInitialized`, whatever principal it
/// names.
pub proof fn lemma_initialize_once(before: &Storage, after: &Storage, authority: Seq<char>)
    requires
        initialize_outcome(before) is Ok,
        after.admin_id() == Some(authority),
    ensures
        initialize_outcome(after) == Err::<(), Error>(Error::AlreadyInitialized),
{
}

/// A role that was granted is held. `before` and `after` are the store
/// around a grant of `role` to `p` that succeeded.
pub proof fn lemma_grant_then_has(before: &Storage, after: &Storage, p: Seq<char>, role: Role)
    requires
        after.role_table() == table_after_grant(before.role_table(), p, role),
    ensures
        after.holds(p, role),
{
    let list = roles_in(before.role_table(), p);
    if !list.contains(role) {
        assert(list.push(role)[list.len() as int] == role);
    }
}

/// A role that was revoked is not held. `before` and `after` are the store
/// around a revocation of `role` from `p` that succeeded.
pub proof fn lemma_revoke_then_has_not(before: &Storage, after: &Storage, p: Seq<char>, role: Role)
    requires
        after.role_table() == table_after_revoke(before.role_table(), p, role),
    ensures
        !after.holds(p, role),
{
    let list = roles_in(before.role_table(), p);
    let rest = list.filter(other_than(role));
    lemma_filter_others(list, role);
}

/// Granting and revoking touch one role of one principal: whether another
/// principal holds a role, and whether `p` holds another role, stays as it
/// was.
pub proof fn lemma_roles_of_others_stay(
    before: &Storage,
    after: &Storage,
    p: Seq<char>,
    role: Role,
    q: Seq<char>,
    other: Role,
)
    requires
        after.role_table() == table_after_grant(before.role_table(), p, role) || after.role_table()
            == table_after_revoke(before.role_table(), p, role),
        q != p || other != role,
    ensures
        after.holds(q, other) == before.holds(q, other),
{
    let table = before.role_table();
    let list = roles_in(table, p);
    if q == p {
        if after.role_table() == table_after_grant(table, p, role) {
            if !list.contains(role) {
                let longer = list.push(role);
                assert(after.roles_of(p) == longer);
                if list.contains(other) {
                    let i = choose|i: int| 0 <= i < list.len() && list[i] == other;
                    assert(longer[i] == other);
                }
                if longer.contains(other) {
                    let i = choose|i: int| 0 <= i < longer.len() && longer[i] == other;
                    assert(list[i] == other);
                }
            }
        } else {
            if list.contains(role) {
                let rest = list.filter(other_than(role));
                lemma_filter_others(list, role);
                assert(rest.contains(other) <==> list.contains(other));
                if rest.len() == 0 {
                    assert(after.roles_of(p) =~= Seq::<Role>::empty());
                    if rest.contains(other) {
                        let i = choose|i: int| 0 <= i < rest.len() && rest[i] == other;
                    }
                } else {
                    assert(after.roles_of(p) == rest);
                }
            }
        }
    } else {
        assert(after.role_table().contains_key(q) == table.contains_key(q));
        if table.contains_key(q) {
            assert(after.role_table()[q] == table[q]);
        }
    }
}

/// Granting a role twice is granting it once: the second grant changes
/// nothing, and no list of roles names a role twice.
pub proof fn lemma_grant_idempotent(table: Map<Seq<char>, Seq<Role>>, p: Seq<char>, role: Role)
    requires
        role_lists_distinct(table),
    ensures
        table_after_grant(table_after_grant(table, p, role), p, role) == table_after_grant(
            table,
            p,
            role,
        ),
        role_lists_distinct(table_after_grant(table, p, role)),
{
    let list = roles_in(table, p);
    if !list.contains(role) {
        assert(list.push(role)[list.len() as int] == role);
        assert(list.no_duplicates());
        assert(list.push(role).no_duplicates());
    }
}

/// An administrator passes every check. A principal that holds `Admin` and
/// nothing else passes the checks for issuers, for revokers and for managers
/// of certification authorities, though it holds none of those roles.
pub proof fn lemma_admin_passes_every_check(store: &Storage, p: Seq<char>)
    requires
        store.roles_of(p) == seq![Role::Admin],
    ensures
        permits(store, p, Role::Issuer),
        permits(store, p, Role::Revoker),
        permits(store, p, Role::AuthorityManager),
        !store.holds(p, Role::Issuer),
        !store.holds(p, Role::Revoker),
        !store.holds(p, Role::AuthorityManager),
{
    assert(store.roles_of(p)[0] == Role::Admin);
}

/// An identifier is given out once. Where a certificate is recorded under
/// `cert_id`, a caller that passes the check for issuers gets
/// `CertificateAlreadyExists`; a caller that does not pass it gets
/// `Unauthorized`. Either way the issuance fails.
pub proof fn lemma_issue_taken_identifier(store: &Storage, caller: Seq<char>, cert_id: Seq<char>)
    requires
        store.certs().contains_key(cert_id),
    ensures
        issue_outcome(store, caller, cert_id) is Err,
        permits(store, caller, Role::Issuer) ==> issue_outcome(store, caller, cert_id) == Err::<
            (),
            Error,
        >(Error::CertificateAlreadyExists),
{
}

/// One update of a certificate's metadata.
pub struct MetadataUpdate {
    pub metadata: Seq<char>,
    pub signature: Seq<u8>,
    pub now: u64,
}

/// A record after the updates of its metadata, made one by one in their
/// order.
pub open spec fn after_updates(
    record: CertificateDetailsView,
    cert_id: Seq<char>,
    updates: Seq<MetadataUpdate>,
) -> CertificateDetailsView
    decreases updates.len(),
{
    if updates.len() == 0 {
        record
    } else {
        metadata_updated(
            after_updates(record, cert_id, updates.drop_last()),
            cert_id,
            updates.last().metadata,
            updates.last().signature,
            updates.last().now,
        )
    }
}

/// The version counts the updates of the metadata: after `n` of them it is
/// `n` more than before. The status, the revocation reason, the owner and
/// the issuer are as before.
pub proof fn lemma_version_counts_updates(
    record: CertificateDetailsView,
    cert_id: Seq<char>,
    updates: Seq<MetadataUpdate>,
)
    requires
        record.version + updates.len() <= u32::MAX,
    ensures
        after_updates(record, cert_id, updates).version == record.version + updates.len(),
        after_updates(record, cert_id, updates).status == record.status,
        after_updates(record, cert_id, updates).revocation_reason == record.revocation_reason,
        after_updates(record, cert_id, updates).owner == record.owner,
        after_updates(record, cert_id, updates).issuer == record.issuer,
    decreases updates.len(),
{
    if updates.len() > 0 {
        lemma_version_counts_updates(record, cert_id, updates.drop_last());
    }
}

/// A certificate is issued at version 1, so after `n` updates of its
/// metadata its version is `1 + n`.
pub proof fn lemma_version_after_issue(
    request: IssueRequest,
    issuer: Seq<char>,
    now: u64,
    updates: Seq<MetadataUpdate>,
)
    requires
        1 + updates.len() <= u32::MAX,
    ensures
        issued_record(request, issuer, now).version == 1,
        after_updates(issued_record(request, issuer, now), request.cert_id, updates).version == 1
            + updates.len(),
{
    lemma_version_counts_updates(issued_record(request, issuer, now), request.cert_id, updates);
}

/// An update of the status never changes the version, nor anything but the
/// status, the revocation reason and the time of the last change.
pub proof fn lemma_status_update_keeps_version(
    record: CertificateDetailsView,
    status: CertificateStatus,
    reason: Option<Seq<char>>,
    now: u64,
)
    ensures
        status_updated(record, status, reason, now).version == record.version,
        status_updated(record, status, reason, now).metadata == record.metadata,
        status_updated(record, status, reason, now).metadata_hash == record.metadata_hash,
        status_updated(record, status, reason, now).signature == record.signature,
        status_updated(record, status, reason, now).owner == record.owner,
        status_updated(record, status, reason, now).issuer == record.issuer,
{
}

/// The revocation reason follows revocations only. After an update to
/// `Revoked` the reason recorded is the one given with it; after an update
/// to any other status the reason is the one recorded before.
pub proof fn lemma_revocation_reason(
    record: CertificateDetailsView,
    status: CertificateStatus,
    reason: Option<Seq<char>>,
    now: u64,
)
    ensures
        status == CertificateStatus::Revoked ==> status_updated(
            record,
            status,
            reason,
            now,
        ).revocation_reason == reason,
        status != CertificateStatus::Revoked ==> status_updated(
            record,
            status,
            reason,
            now,
        ).revocation_reason == record.revocation_reason,
        status_updated(record, status, reason, now).status == status,
{
}

/// The parts of a verdict do not depend on each other. For a revoked
/// certificate, the recorded digest and a signature found valid give a
/// verdict that confirms the digest and the signature and still denies the
/// validity.
pub proof fn lemma_verdict_parts_independent(record: CertificateDetailsView, now: u64)
    requires
        record.status == CertificateStatus::Revoked,
    ensures
        verdict(Some(record), record.metadata_hash, true, now).hash_valid,
        verdict(Some(record), record.metadata_hash, true, now).signature_valid,
        !verdict(Some(record), record.metadata_hash, true, now).is_valid,
        verdict(Some(record), record.metadata_hash, true, now).exists,
{
}

/// Expiry is computed, not recorded. A certificate whose expiration date has
/// passed is not valid, though its status still reads `Active`; with an
/// expiration date of 0 it never expires.
pub proof fn lemma_expiry_lag(record: CertificateDetailsView, now: u64)
    requires
        record.status == CertificateStatus::Active,
    ensures
        record.metadata.expiration_date != 0 && now > record.metadata.expiration_date ==> expired_at(
            record,
            now,
        ) && !valid_at(record, now),
        record.metadata.expiration_date == 0 ==> !expired_at(record, now) && valid_at(record, now),
        record.metadata.expiration_date >= now ==> valid_at(record, now),
{
}

/// Whether row `i` of a batch finds its identifier taken: by a certificate
/// recorded before the batch, or by an earlier row.
pub open spec fn row_is_late(
    recorded: Map<Seq<char>, CertificateDetailsView>,
    requests: Seq<IssueRequest>,
    i: int,
) -> bool {
    recorded.contains_key(requests[i].cert_id) || exists|j: int|
        0 <= j < i && requests[j].cert_id == requests[i].cert_id
}

/// The test that keeps the identifiers under which `recorded` holds a
/// certificate.
pub open spec fn taken_in(recorded: Map<Seq<char>, CertificateDetailsView>) -> spec_fn(IssueRequest) -> bool {
    |request: IssueRequest| recorded.contains_key(request.cert_id)
}

/// Whether a row of the batch names the identifier `k`.
pub open spec fn batch_names(requests: Seq<IssueRequest>, k: Seq<char>) -> bool {
    exists|i: int| 0 <= i < requests.len() && (#[trigger] requests[i]).cert_id == k
}

/// After a batch the identifiers recorded are those recorded before and
/// those of the rows: every row's identifier is recorded, whether the row
/// was issued or not.
pub proof fn lemma_batch_domain(start: BatchState, requests: Seq<IssueRequest>, issuer: Seq<char>, now: u64)
    ensures
        forall|k: Seq<char>| #[trigger]
            batch_after(start, requests, issuer, now).certs.contains_key(k) <==> (
            start.certs.contains_key(k) || batch_names(requests, k)),
    decreases requests.len(),
{
    let end = batch_after(start, requests, issuer, now);
    if requests.len() > 0 {
        let front = requests.drop_last();
        let mid = batch_after(start, front, issuer, now);
        lemma_batch_domain(start, front, issuer, now);
        let last = requests.last();
        assert forall|k: Seq<char>| #[trigger]
            end.certs.contains_key(k) <==> (start.certs.contains_key(k) || batch_names(
                requests,
                k,
            )) by {
            assert(mid.certs.contains_key(k) <==> (start.certs.contains_key(k) || batch_names(
                front,
                k,
            )));
            if batch_names(front, k) {
                let i = choose|i: int| 0 <= i < front.len() && (#[trigger] front[i]).cert_id == k;
                assert(requests[i].cert_id == k);
            }
            if batch_names(requests, k) && !batch_names(front, k) {
                let i = choose|i: int|
                    0 <= i < requests.len() && (#[trigger] requests[i]).cert_id == k;
                if i < front.len() {
                    assert(front[i].cert_id == k);
                }
                assert(k == last.cert_id);
            }
            if k == last.cert_id {
                assert(requests[requests.len() - 1].cert_id == k);
            }
        }
    }
}

/// A batch changes no certificate that was recorded before it, and a row
/// that is issued is not undone by the rows after it: what is recorded
/// under an identifier after a part of the batch is recorded under it after
/// the whole batch.
pub proof fn lemma_batch_keeps_recorded(
    start: BatchState,
    requests: Seq<IssueRequest>,
    issuer: Seq<char>,
    now: u64,
    k: Seq<char>,
)
    requires
        start.certs.contains_key(k),
    ensures
        batch_after(start, requests, issuer, now).certs.contains_key(k),
        batch_after(start, requests, issuer, now).certs[k] == start.certs[k],
    decreases requests.len(),
{
    if requests.len() > 0 {
        lemma_batch_keeps_recorded(start, requests.drop_last(), issuer, now, k);
    }
}

/// A row of a batch is issued unless its identifier is taken, and the
/// certificate then recorded is the one that the row asks for: of two rows
/// with one identifier the first wins.
pub proof fn lemma_batch_row(
    start: BatchState,
    requests: Seq<IssueRequest>,
    issuer: Seq<char>,
    now: u64,
    i: int,
)
    requires
        0 <= i < requests.len(),
        !row_is_late(start.certs, requests, i),
    ensures
        batch_after(start, requests, issuer, now).certs.contains_key(requests[i].cert_id),
        batch_after(start, requests, issuer, now).certs[requests[i].cert_id] == issued_record(
            requests[i],
            issuer,
            now,
        ),
    decreases requests.len(),
{
    let front = requests.drop_last();
    let mid = batch_after(start, front, issuer, now);
    if i < front.len() {
        assert(front[i] == requests[i]);
        assert(!row_is_late(start.certs, front, i)) by {
            if exists|j: int| 0 <= j < i && front[j].cert_id == front[i].cert_id {
                let j = choose|j: int| 0 <= j < i && front[j].cert_id == front[i].cert_id;
                assert(requests[j].cert_id == requests[i].cert_id);
            }
        }
        lemma_batch_row(start, front, issuer, now, i);
    } else {
        lemma_batch_domain(start, front, issuer, now);
        if mid.certs.contains_key(requests[i].cert_id) {
            assert(batch_names(front, requests[i].cert_id));
            let j = choose|j: int|
                0 <= j < front.len() && (#[trigger] front[j]).cert_id == requests[i].cert_id;
            assert(requests[j].cert_id == requests[i].cert_id);
        }
    }
}

/// The failed identifiers of a batch whose rows name each identifier once:
/// they are the identifiers, in the order of the rows, under which a
/// certificate was recorded before the batch. The other rows are issued.
pub proof fn lemma_batch_failures(
    start: BatchState,
    requests: Seq<IssueRequest>,
    issuer: Seq<char>,
    now: u64,
)
    requires
        start.failed.len() == 0,
        forall|i: int, j: int|
            0 <= i < j < requests.len() ==> requests[i].cert_id != requests[j].cert_id,
    ensures
        batch_after(start, requests, issuer, now).failed == requests.filter(
            taken_in(start.certs),
        ).map_values(|request: IssueRequest| request.cert_id),
    decreases requests.len(),
{
    reveal_with_fuel(Seq::filter, 1);
    let end = batch_after(start, requests, issuer, now);
    let late = requests.filter(taken_in(start.certs));
    let ids = late.map_values(|request: IssueRequest| request.cert_id);
    if requests.len() == 0 {
        assert(end.failed =~= ids);
    } else {
        let front = requests.drop_last();
        let last = requests.last();
        let mid = batch_after(start, front, issuer, now);
        assert forall|i: int, j: int| 0 <= i < j < front.len() implies front[i].cert_id
            != front[j].cert_id by {
            assert(front[i] == requests[i] && front[j] == requests[j]);
        }
        lemma_batch_failures(start, front, issuer, now);
        lemma_batch_domain(start, front, issuer, now);
        let front_late = front.filter(taken_in(start.certs));
        let front_ids = front_late.map_values(|request: IssueRequest| request.cert_id);
        assert(mid.failed == front_ids);
        if mid.certs.contains_key(last.cert_id) && !start.certs.contains_key(last.cert_id) {
            assert(batch_names(front, last.cert_id));
            let j = choose|j: int| 0 <= j < front.len() && (#[trigger] front[j]).cert_id == last.cert_id;
            assert(requests[j].cert_id == requests[requests.len() - 1].cert_id);
        }
        if start.certs.contains_key(last.cert_id) {
            lemma_batch_keeps_recorded(start, front, issuer, now, last.cert_id);
            assert(late == front_late.push(last));
            assert(ids =~= front_ids.push(last.cert_id));
        } else {
            assert(late == front_late);
        }
    }
}

} // verus!
