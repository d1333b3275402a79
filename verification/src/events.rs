//! The notices that the registry gives of what it did. The registry appends
//! them to a log; a host publishes the log and never reads it back into the
//! registry.

use crate::types::{clone_text, text_of, CertificateStatus, CertificateType, Principal, Role};
use vstd::prelude::*;

verus! {

/// The topics under which a host publishes the notices.
pub struct EventTopics;

impl EventTopics {
    /// A certificate was issued.
    pub const CERTIFICATE_ISSUED: &'static str = "CERT_ISS";

    /// A certificate was revoked.
    pub const CERTIFICATE_REVOKED: &'static str = "CERT_REV";

    /// The status of a certificate changed.
    pub const STATUS_CHANGED: &'static str = "STATUS_C";

    /// A certification authority was added.
    pub const AUTHORITY_ADDED: &'static str = "AUTH_ADD";

    /// A certification authority was updated.
    pub const AUTHORITY_UPDATED: &'static str = "AUTH_UPD";

    /// A role was granted.
    pub const ROLE_GRANTED: &'static str = "ROLE_GRT";

    /// A role was revoked.
    pub const ROLE_REVOKED: &'static str = "ROLE_REV";

    /// The registry was upgraded.
    pub const CONTRACT_UPGRADED: &'static str = "UPGRADED";
}

/// One notice.
#[derive(Debug, PartialEq, Eq)]
pub enum Event {
    /// `issuer` issued the certificate `cert_id` to `owner`.
    CertificateIssued { cert_id: String, owner: Principal, issuer: Principal, cert_type: CertificateType },
    /// `changed_by` changed the status of the certificate `cert_id`.
    StatusChanged {
        cert_id: String,
        old_status: CertificateStatus,
        new_status: CertificateStatus,
        changed_by: Principal,
    },
    /// `revoked_by` revoked the certificate `cert_id`.
    CertificateRevoked { cert_id: String, revoked_by: Principal, reason: Option<String> },
    /// `added_by` added the certification authority `authority`.
    AuthorityAdded { authority: Principal, added_by: Principal },
    /// `updated_by` updated the certification authority `authority`.
    AuthorityUpdated { authority: Principal, updated_by: Principal },
    /// `granted_by` granted `role` to `address`.
    RoleGranted { address: Principal, role: Role, granted_by: Principal },
    /// `revoked_by` took `role` from `address`.
    RoleRevoked { address: Principal, role: Role, revoked_by: Principal },
    /// `upgraded_by` upgraded the registry.
    ContractUpgraded { old_version: u32, new_version: u32, upgraded_by: Principal },
}

/// The view of an [`Event`].
pub enum EventView {
    CertificateIssued { cert_id: Seq<char>, owner: Seq<char>, issuer: Seq<char>, cert_type: CertificateType },
    StatusChanged {
        cert_id: Seq<char>,
        old_status: CertificateStatus,
        new_status: CertificateStatus,
        changed_by: Seq<char>,
    },
    CertificateRevoked { cert_id: Seq<char>, revoked_by: Seq<char>, reason: Option<Seq<char>> },
    AuthorityAdded { authority: Seq<char>, added_by: Seq<char> },
    AuthorityUpdated { authority: Seq<char>, updated_by: Seq<char> },
    RoleGranted { address: Seq<char>, role: Role, granted_by: Seq<char> },
    RoleRevoked { address: Seq<char>, role: Role, revoked_by: Seq<char> },
    ContractUpgraded { old_version: u32, new_version: u32, upgraded_by: Seq<char> },
}

impl View for Event {
    type V = EventView;

    open spec fn view(&self) -> EventView {
        match *self {
            Event::CertificateIssued { cert_id, owner, issuer, cert_type } => EventView::CertificateIssued {
                cert_id: cert_id@,
                owner: owner@,
                issuer: issuer@,
                cert_type,
            },
            Event::StatusChanged { cert_id, old_status, new_status, changed_by } => EventView::StatusChanged {
                cert_id: cert_id@,
                old_status,
                new_status,
                changed_by: changed_by@,
            },
            Event::CertificateRevoked { cert_id, revoked_by, reason } => EventView::CertificateRevoked {
                cert_id: cert_id@,
                revoked_by: revoked_by@,
                reason: text_of(reason),
            },
            Event::AuthorityAdded { authority, added_by } => EventView::AuthorityAdded {
                authority: authority@,
                added_by: added_by@,
            },
            Event::AuthorityUpdated { authority, updated_by } => EventView::AuthorityUpdated {
                authority: authority@,
                updated_by: updated_by@,
            },
            Event::RoleGranted { address, role, granted_by } => EventView::RoleGranted {
                address: address@,
                role,
                granted_by: granted_by@,
            },
            Event::RoleRevoked { address, role, revoked_by } => EventView::RoleRevoked {
                address: address@,
                role,
                revoked_by: revoked_by@,
            },
            Event::ContractUpgraded { old_version, new_version, upgraded_by } => EventView::ContractUpgraded {
                old_version,
                new_version,
                upgraded_by: upgraded_by@,
            },
        }
    }
}

impl Event {
    /// The topic under which the notice is published.
    pub open spec fn spec_topic(&self) -> &'static str {
        match *self {
            Event::CertificateIssued { .. } => EventTopics::CERTIFICATE_ISSUED,
            Event::StatusChanged { .. } => EventTopics::STATUS_CHANGED,
            Event::CertificateRevoked { .. } => EventTopics::CERTIFICATE_REVOKED,
            Event::AuthorityAdded { .. } => EventTopics::AUTHORITY_ADDED,
            Event::AuthorityUpdated { .. } => EventTopics::AUTHORITY_UPDATED,
            Event::RoleGranted { .. } => EventTopics::ROLE_GRANTED,
            Event::RoleRevoked { .. } => EventTopics::ROLE_REVOKED,
            Event::ContractUpgraded { .. } => EventTopics::CONTRACT_UPGRADED,
        }
    }

    /// The topic under which the notice is published.
    pub fn topic(&self) -> (t: &'static str)
        ensures
            t == self.spec_topic(),
    {
        match self {
            Event::CertificateIssued { .. } => EventTopics::CERTIFICATE_ISSUED,
            Event::StatusChanged { .. } => EventTopics::STATUS_CHANGED,
            Event::CertificateRevoked { .. } => EventTopics::CERTIFICATE_REVOKED,
            Event::AuthorityAdded { .. } => EventTopics::AUTHORITY_ADDED,
            Event::AuthorityUpdated { .. } => EventTopics::AUTHORITY_UPDATED,
            Event::RoleGranted { .. } => EventTopics::ROLE_GRANTED,
            Event::RoleRevoked { .. } => EventTopics::ROLE_REVOKED,
            Event::ContractUpgraded { .. } => EventTopics::CONTRACT_UPGRADED,
        }
    }
}

/// The log of notices, oldest first. Its view is the sequence of the
/// notices' views.
pub struct Events {
    /// The notices, oldest first.
    pub log: Vec<Event>,
}

impl View for Events {
    type V = Seq<EventView>;

    open spec fn view(&self) -> Seq<EventView> {
        Seq::new(self.log@.len(), |i: int| self.log@[i]@)
    }
}

impl Events {
    /// The empty log.
    pub fn new() -> (e: Events)
        ensures
            e@ == Seq::<EventView>::empty(),
    {
        let e = Events { log: Vec::new() };
        assert(e@ =~= Seq::<EventView>::empty());
        e
    }

    fn record(&mut self, event: Event)
        ensures
            final(self)@ == old(self)@.push(event@),
    {
        self.log.push(event);
        assert(self@ =~= old(self)@.push(event@));
    }

    /// Notes that `issuer` issued the certificate `cert_id` to `owner`.
    pub fn certificate_issued(
        &mut self,
        cert_id: &String,
        owner: &Principal,
        issuer: &Principal,
        cert_type: &CertificateType,
    )
        ensures
            final(self)@ == old(self)@.push(
                (EventView::CertificateIssued {
                    cert_id: cert_id@,
                    owner: owner@,
                    issuer: issuer@,
                    cert_type: *cert_type,
                }),
            ),
    {
        self.record(
            Event::CertificateIssued {
                cert_id: cert_id.clone(),
                owner: owner.clone(),
                issuer: issuer.clone(),
                cert_type: *cert_type,
            },
        );
    }

    /// Notes that `changed_by` changed the status of the certificate
    /// `cert_id` from `old_status` to `new_status`.
    pub fn status_changed(
        &mut self,
        cert_id: &String,
        old_status: &CertificateStatus,
        new_status: &CertificateStatus,
        changed_by: &Principal,
    )
        ensures
            final(self)@ == old(self)@.push(
                (EventView::StatusChanged {
                    cert_id: cert_id@,
                    old_status: *old_status,
                    new_status: *new_status,
                    changed_by: changed_by@,
                }),
            ),
    {
        self.record(
            Event::StatusChanged {
                cert_id: cert_id.clone(),
                old_status: *old_status,
                new_status: *new_status,
                changed_by: changed_by.clone(),
            },
        );
    }

    /// Notes that `revoked_by` revoked the certificate `cert_id` for
    /// `reason`.
    pub fn emit_certificate_revoked(
        &mut self,
        cert_id: &String,
        revoked_by: &Principal,
        reason: &Option<String>,
    )
        ensures
            final(self)@ == old(self)@.push(
                (EventView::CertificateRevoked {
                    cert_id: cert_id@,
                    revoked_by: revoked_by@,
                    reason: text_of(*reason),
                }),
            ),
    {
        self.record(
            Event::CertificateRevoked {
                cert_id: cert_id.clone(),
                revoked_by: revoked_by.clone(),
                reason: clone_text(reason),
            },
        );
    }

    /// Notes that `added_by` added the certification authority `authority`.
    pub fn authority_added(&mut self, authority: &Principal, added_by: &Principal)
        ensures
            final(self)@ == old(self)@.push(
                (EventView::AuthorityAdded { authority: authority@, added_by: added_by@ }),
            ),
    {
        self.record(Event::AuthorityAdded { authority: authority.clone(), added_by: added_by.clone() });
    }

    /// Notes that `updated_by` updated the certification authority
    /// `authority`.
    pub fn authority_updated(&mut self, authority: &Principal, updated_by: &Principal)
        ensures
            final(self)@ == old(self)@.push(
                (EventView::AuthorityUpdated { authority: authority@, updated_by: updated_by@ }),
            ),
    {
        self.record(
            Event::AuthorityUpdated { authority: authority.clone(), updated_by: updated_by.clone() },
        );
    }

    /// Notes that `granted_by` granted `role` to `address`.
    pub fn role_granted(&mut self, address: &Principal, role: &Role, granted_by: &Principal)
        ensures
            final(self)@ == old(self)@.push(
                (EventView::RoleGranted { address: address@, role: *role, granted_by: granted_by@ }),
            ),
    {
        self.record(
            Event::RoleGranted { address: address.clone(), role: *role, granted_by: granted_by.clone() },
        );
    }

    /// Notes that `revoked_by` took `role` from `address`.
    pub fn role_revoked(&mut self, address: &Principal, role: &Role, revoked_by: &Principal)
        ensures
            final(self)@ == old(self)@.push(
                (EventView::RoleRevoked { address: address@, role: *role, revoked_by: revoked_by@ }),
            ),
    {
        self.record(
            Event::RoleRevoked { address: address.clone(), role: *role, revoked_by: revoked_by.clone() },
        );
    }

    /// Notes that `upgraded_by` upgraded the registry from `old_version` to
    /// `new_version`.
    pub fn contract_upgraded(&mut self, old_version: &u32, new_version: &u32, upgraded_by: &Principal)
        ensures
            final(self)@ == old(self)@.push(
                (EventView::ContractUpgraded {
                    old_version: *old_version,
                    new_version: *new_version,
                    upgraded_by: upgraded_by@,
                }),
            ),
    {
        self.record(
            Event::ContractUpgraded {
                old_version: *old_version,
                new_version: *new_version,
                upgraded_by: upgraded_by.clone(),
            },
        );
    }
}

/// Notes in `events` that `issuer` issued the certificate `cert_id` to
/// `owner`.
pub fn emit_certificate_issued(
    events: &mut Events,
    cert_id: &String,
    owner: &Principal,
    issuer: &Principal,
    cert_type: &CertificateType,
)
    ensures
        final(events)@ == old(events)@.push(
            (EventView::CertificateIssued {
                cert_id: cert_id@,
                owner: owner@,
                issuer: issuer@,
                cert_type: *cert_type,
            }),
        ),
{
    events.certificate_issued(cert_id, owner, issuer, cert_type);
}

/// Notes in `events` that `changed_by` changed the status of the certificate
/// `cert_id` from `old_status` to `new_status`.
pub fn emit_status_changed(
    events: &mut Events,
    cert_id: &String,
    old_status: &CertificateStatus,
    new_status: &CertificateStatus,
    changed_by: &Principal,
)
    ensures
        final(events)@ == old(events)@.push(
            (EventView::StatusChanged {
                cert_id: cert_id@,
                old_status: *old_status,
                new_status: *new_status,
                changed_by: changed_by@,
            }),
        ),
{
    events.status_changed(cert_id, old_status, new_status, changed_by);
}

/// Notes in `events` that `revoked_by` revoked the certificate `cert_id` for
/// `reason`.
pub fn emit_certificate_revoked(
    events: &mut Events,
    cert_id: &String,
    revoked_by: &Principal,
    reason: &Option<String>,
)
    ensures
        final(events)@ == old(events)@.push(
            (EventView::CertificateRevoked {
                cert_id: cert_id@,
                revoked_by: revoked_by@,
                reason: text_of(*reason),
            }),
        ),
{
    events.emit_certificate_revoked(cert_id, revoked_by, reason);
}

} // verus!
