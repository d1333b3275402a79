//! The store that the registry works on: the administrator, the certificates,
//! the certification authorities, the roles and a version counter. A host
//! loads it before an operation and saves it afterwards.

use crate::text_map::{texts_of, TextMap};
use crate::types::{
    CertificateDetails, CertificateDetailsView, CertificationAuthority, CertificationAuthorityView,
    Principal, Role,
};
use vstd::prelude::*;

verus! {

/// The names under which a host keeps the parts of the store.
pub struct StorageKeys;

impl StorageKeys {
    /// The administrator.
    pub const ADMIN: &'static str = "ADMIN";

    /// The certificates.
    pub const CERTIFICATES: &'static str = "CERTS";

    /// The certification authorities.
    pub const AUTHORITIES: &'static str = "AUTH";

    /// The roles.
    pub const ROLES: &'static str = "ROLES";

    /// The configuration.
    pub const CONFIG: &'static str = "CONFIG";

    /// The version counter.
    pub const VERSION: &'static str = "VER";
}

/// The store. Each part is absent until it is first written.
pub struct Storage {
    /// The administrator, once the registry is initialized.
    pub admin: Option<Principal>,
    /// The certificates, by identifier.
    pub certificates: Option<TextMap<CertificateDetails>>,
    /// The certification authorities, by principal.
    pub authorities: Option<TextMap<CertificationAuthority>>,
    /// The roles that each principal holds, by principal.
    pub roles: Option<TextMap<Vec<Role>>>,
    /// The version of the store's layout.
    pub version: Option<u32>,
}

/// Whether every role list in `table` names each role once at most.
pub open spec fn role_lists_distinct(table: Map<Seq<char>, Seq<Role>>) -> bool {
    forall|p: Seq<char>| #[trigger] table.contains_key(p) ==> table[p].no_duplicates()
}

impl Storage {
    /// The store is well formed: its maps are. Every store made by the
    /// functions of this crate is.
    pub open spec fn wf(&self) -> bool {
        &&& self.certificates matches Some(m) ==> m.wf()
        &&& self.authorities matches Some(m) ==> m.wf()
        &&& self.roles matches Some(m) ==> m.wf()
    }

    /// No principal holds a role twice. The empty store is so, and the
    /// operations on roles keep a store so.
    pub open spec fn roles_distinct(&self) -> bool {
        role_lists_distinct(self.role_table())
    }

    /// The administrator's identifier, if one is recorded.
    pub open spec fn admin_id(&self) -> Option<Seq<char>> {
        match self.admin {
            Some(a) => Some(a@),
            None => None,
        }
    }

    /// The certificates by identifier; none while that part is absent.
    pub open spec fn certs(&self) -> Map<Seq<char>, CertificateDetailsView> {
        match self.certificates {
            Some(m) => m@,
            None => Map::empty(),
        }
    }

    /// The certificate identifiers, in the order in which the store is walked.
    pub open spec fn cert_ids(&self) -> Seq<Seq<char>> {
        match self.certificates {
            Some(m) => m.keys(),
            None => Seq::empty(),
        }
    }

    /// The role lists by principal; none while that part is absent.
    pub open spec fn role_table(&self) -> Map<Seq<char>, Seq<Role>> {
        match self.roles {
            Some(m) => m@,
            None => Map::empty(),
        }
    }

    /// The certification authorities by principal; none while that part is
    /// absent.
    pub open spec fn authority_table(&self) -> Map<Seq<char>, CertificationAuthorityView> {
        match self.authorities {
            Some(m) => m@,
            None => Map::empty(),
        }
    }

    /// The roles that principal `p` holds: the empty list where the store has
    /// no entry for `p`.
    pub open spec fn roles_of(&self, p: Seq<char>) -> Seq<Role> {
        if self.role_table().contains_key(p) {
            self.role_table()[p]
        } else {
            Seq::empty()
        }
    }

    /// Whether principal `p` holds `role`.
    pub open spec fn holds(&self, p: Seq<char>, role: Role) -> bool {
        self.roles_of(p).contains(role)
    }

    /// The identifiers are those of the certificates, each once.
    pub proof fn lemma_cert_ids(&self)
        requires
            self.wf(),
        ensures
            self.cert_ids().no_duplicates(),
            forall|k: Seq<char>| self.certs().contains_key(k) <==> self.cert_ids().contains(k),
    {
        match self.certificates {
            Some(m) => {
                m.lemma_keys();
            },
            None => {},
        }
    }

    /// The store with every part absent.
    pub fn new() -> (s: Storage)
        ensures
            s.wf(),
            s.roles_distinct(),
            s.admin is None,
            s.certificates is None,
            s.authorities is None,
            s.roles is None,
            s.version is None,
    {
        Storage { admin: None, certificates: None, authorities: None, roles: None, version: None }
    }

    /// The administrator.
    pub fn get_admin(&self) -> (a: &Principal)
        requires
            self.admin is Some,
        ensures
            Some(a@) == self.admin_id(),
    {
        self.admin.as_ref().unwrap()
    }

    /// Records `admin` as the administrator.
    pub fn set_admin(&mut self, admin: &Principal)
        ensures
            final(self).admin_id() == Some(admin@),
            final(self).certificates == old(self).certificates,
            final(self).authorities == old(self).authorities,
            final(self).roles == old(self).roles,
            final(self).version == old(self).version,
    {
        self.admin = Some(admin.clone());
    }

    /// Whether an administrator is recorded.
    pub fn has_admin(&self) -> (b: bool)
        ensures
            b == (self.admin is Some),
    {
        self.admin.is_some()
    }

    /// The certificates.
    pub fn get_certificates(&self) -> (m: &TextMap<CertificateDetails>)
        requires
            self.certificates is Some,
        ensures
            Some(*m) == self.certificates,
    {
        self.certificates.as_ref().unwrap()
    }

    /// Replaces the certificates.
    pub fn set_certificates(&mut self, certificates: TextMap<CertificateDetails>)
        ensures
            final(self).certificates == Some(certificates),
            final(self).admin == old(self).admin,
            final(self).authorities == old(self).authorities,
            final(self).roles == old(self).roles,
            final(self).version == old(self).version,
    {
        self.certificates = Some(certificates);
    }

    /// Makes the certificates present: empty where they were absent, as they
    /// were otherwise.
    pub fn init_certificates(&mut self)
        requires
            old(self).wf(),
        ensures
            final(self).wf(),
            final(self).certificates is Some,
            final(self).certs() == old(self).certs(),
            final(self).cert_ids() == old(self).cert_ids(),
            old(self).certificates is Some ==> final(self).certificates == old(self).certificates,
            final(self).admin == old(self).admin,
            final(self).authorities == old(self).authorities,
            final(self).roles == old(self).roles,
            final(self).version == old(self).version,
    {
        if self.certificates.is_none() {
            self.certificates = Some(TextMap::new());
        }
    }

    /// The certification authorities.
    pub fn get_authorities(&self) -> (m: &TextMap<CertificationAuthority>)
        requires
            self.authorities is Some,
        ensures
            Some(*m) == self.authorities,
    {
        self.authorities.as_ref().unwrap()
    }

    /// Replaces the certification authorities.
    pub fn set_authorities(&mut self, authorities: TextMap<CertificationAuthority>)
        ensures
            final(self).authorities == Some(authorities),
            final(self).admin == old(self).admin,
            final(self).certificates == old(self).certificates,
            final(self).roles == old(self).roles,
            final(self).version == old(self).version,
    {
        self.authorities = Some(authorities);
    }

    /// Makes the certification authorities present: empty where they were
    /// absent, as they were otherwise.
    pub fn init_authorities(&mut self)
        requires
            old(self).wf(),
        ensures
            final(self).wf(),
            final(self).authority_table() == old(self).authority_table(),
            match old(self).authorities {
                Some(m) => final(self).authorities == Some(m),
                None => final(self).authorities is Some
                    && final(self).authorities->0@ == Map::<Seq<char>, CertificationAuthorityView>::empty(),
            },
            final(self).admin == old(self).admin,
            final(self).certificates == old(self).certificates,
            final(self).roles == old(self).roles,
            final(self).version == old(self).version,
    {
        if self.authorities.is_none() {
            self.authorities = Some(TextMap::new());
        }
    }

    /// The role lists.
    pub fn get_roles(&self) -> (m: &TextMap<Vec<Role>>)
        requires
            self.roles is Some,
        ensures
            Some(*m) == self.roles,
    {
        self.roles.as_ref().unwrap()
    }

    /// Replaces the role lists.
    pub fn set_roles(&mut self, roles: TextMap<Vec<Role>>)
        ensures
            final(self).roles == Some(roles),
            final(self).admin == old(self).admin,
            final(self).certificates == old(self).certificates,
            final(self).authorities == old(self).authorities,
            final(self).version == old(self).version,
    {
        self.roles = Some(roles);
    }

    /// Makes the role lists present: empty where they were absent, as they
    /// were otherwise.
    pub fn init_roles(&mut self)
        requires
            old(self).wf(),
        ensures
            final(self).wf(),
            final(self).roles is Some,
            final(self).role_table() == old(self).role_table(),
            old(self).roles is Some ==> final(self).roles == old(self).roles,
            final(self).admin == old(self).admin,
            final(self).certificates == old(self).certificates,
            final(self).authorities == old(self).authorities,
            final(self).version == old(self).version,
    {
        if self.roles.is_none() {
            self.roles = Some(TextMap::new());
        }
    }

    /// Makes every map present and sets the version to 1 where none was
    /// recorded. What the store held stays.
    pub fn init_all(&mut self)
        requires
            old(self).wf(),
        ensures
            final(self).wf(),
            final(self).certificates is Some,
            final(self).authorities is Some,
            final(self).roles is Some,
            final(self).certs() == old(self).certs(),
            final(self).cert_ids() == old(self).cert_ids(),
            final(self).role_table() == old(self).role_table(),
            final(self).authority_table() == old(self).authority_table(),
            old(self).authorities is Some ==> final(self).authorities == old(self).authorities,
            final(self).version == Some(
                match old(self).version {
                    Some(v) => v,
                    None => 1u32,
                },
            ),
            final(self).admin == old(self).admin,
    {
        self.init_certificates();
        self.init_authorities();
        self.init_roles();
        if self.version.is_none() {
            self.version = Some(1);
        }
    }
}

/// Whether a certificate is recorded under `cert_id`.
pub fn has_certificate(store: &Storage, cert_id: &String) -> (b: bool)
    requires
        store.wf(),
    ensures
        b == store.certs().contains_key(cert_id@),
{
    match &store.certificates {
        Some(m) => m.contains_key(cert_id),
        None => false,
    }
}

/// A copy of the certificate recorded under `cert_id`.
pub fn get_certificate(store: &Storage, cert_id: &String) -> (c: CertificateDetails)
    requires
        store.wf(),
        store.certs().contains_key(cert_id@),
    ensures
        c@ == store.certs()[cert_id@],
{
    let m = store.certificates.as_ref().unwrap();
    match m.get(cert_id) {
        Some(c) => c.clone(),
        None => {
            proof {
                assert(false);
            }
            vstd::pervasive::unreached()
        },
    }
}

/// Records `certificate` under `cert_id`, in place of what was recorded
/// there. A new identifier comes last in the walk of the store.
pub fn set_certificate(store: &mut Storage, cert_id: &String, certificate: &CertificateDetails)
    requires
        old(store).wf(),
    ensures
        final(store).wf(),
        final(store).certs() == old(store).certs().insert(cert_id@, certificate@),
        final(store).cert_ids() == if old(store).certs().contains_key(cert_id@) {
            old(store).cert_ids()
        } else {
            old(store).cert_ids().push(cert_id@)
        },
        final(store).admin == old(store).admin,
        final(store).authorities == old(store).authorities,
        final(store).roles == old(store).roles,
        final(store).version == old(store).version,
{
    let mut m = match store.certificates.take() {
        Some(m) => m,
        None => TextMap::new(),
    };
    m.set(cert_id.clone(), certificate.clone());
    store.certificates = Some(m);
}

/// The identifiers of all certificates, in the order in which the store is
/// walked.
pub fn get_all_certificate_ids(store: &Storage) -> (ids: Vec<String>)
    requires
        store.wf(),
    ensures
        texts_of(ids@) == store.cert_ids(),
{
    let mut ids: Vec<String> = Vec::new();
    match &store.certificates {
        Some(m) => {
            let n = m.len();
            let mut i: usize = 0;
            while i < n
                invariant
                    m.wf(),
                    n == m.keys().len(),
                    i <= n,
                    ids.len() == i,
                    forall|j: int| 0 <= j < i ==> ids[j]@ == m.keys()[j],
                decreases n - i,
            {
                ids.push(m.key_at(i).clone());
                i += 1;
            }
            assert(texts_of(ids@) =~= m.keys());
        },
        None => {
            assert(texts_of(ids@) =~= Seq::<Seq<char>>::empty());
        },
    }
    ids
}

/// Records `admin` as the administrator.
pub fn set_admin(store: &mut Storage, admin: &Principal)
    ensures
        final(store).admin_id() == Some(admin@),
        final(store).certificates == old(store).certificates,
        final(store).authorities == old(store).authorities,
        final(store).roles == old(store).roles,
        final(store).version == old(store).version,
{
    store.set_admin(admin);
}

/// Whether an administrator is recorded.
pub fn has_admin(store: &Storage) -> (b: bool)
    ensures
        b == (store.admin is Some),
{
    store.has_admin()
}

} // verus!
