//! Who may do what: the roles that principals hold, and the checks that the
//! registry's operations pass through before they change anything.
//!
//! The `caller` of a guarded operation is the principal that the host has
//! authenticated for the invocation. It is independent of the principals
//! that the operation's other arguments name.

use crate::errors::Error;
use crate::events::{EventView, Events};
use crate::storage::Storage;
use crate::text_map::TextMap;
use crate::types::{Principal, Role};
use vstd::prelude::*;

verus! {

/// The roles, by name.
pub struct Roles;

impl Roles {
    /// Full access.
    pub const ADMIN: Role = Role::Admin;

    /// May issue and update certificates.
    pub const ISSUER: Role = Role::Issuer;

    /// May verify certificates.
    pub const VERIFIER: Role = Role::Verifier;

    /// May revoke certificates.
    pub const REVOKER: Role = Role::Revoker;

    /// May manage certification authorities.
    pub const AUTH_MANAGER: Role = Role::AuthorityManager;
}

/// The roles listed for `p` in `table`: none where `p` has no entry.
pub open spec fn roles_in(table: Map<Seq<char>, Seq<Role>>, p: Seq<char>) -> Seq<Role> {
    if table.contains_key(p) {
        table[p]
    } else {
        Seq::empty()
    }
}

/// The test that keeps every role but `role`.
pub open spec fn other_than(role: Role) -> spec_fn(Role) -> bool {
    |r: Role| r != role
}

/// The role table after `role` is granted to `p`: unchanged where `p` holds
/// the role, else with the role added at the end of `p`'s list.
pub open spec fn table_after_grant(table: Map<Seq<char>, Seq<Role>>, p: Seq<char>, role: Role) -> Map<
    Seq<char>,
    Seq<Role>,
> {
    if roles_in(table, p).contains(role) {
        table
    } else {
        table.insert(p, roles_in(table, p).push(role))
    }
}

/// The role table after `role` is taken from `p`: unchanged where `p` does
/// not hold the role; else `p`'s list without the role, and no entry at all
/// for `p` where that list is empty.
pub open spec fn table_after_revoke(table: Map<Seq<char>, Seq<Role>>, p: Seq<char>, role: Role) -> Map<
    Seq<char>,
    Seq<Role>,
> {
    if !roles_in(table, p).contains(role) {
        table
    } else if roles_in(table, p).filter(other_than(role)).len() == 0 {
        table.remove(p)
    } else {
        table.insert(p, roles_in(table, p).filter(other_than(role)))
    }
}

/// Whether `caller` passes the check for `role`: it holds the role itself, or
/// it holds `Admin`, which stands for every narrower role.
pub open spec fn permits(store: &Storage, caller: Seq<char>, role: Role) -> bool {
    store.holds(caller, Role::Admin) || store.holds(caller, role)
}

/// Whether `caller` is the recorded administrator.
pub open spec fn is_administrator(store: &Storage, caller: Seq<char>) -> bool {
    store.admin_id() == Some(caller)
}

fn list_contains(list: &Vec<Role>, role: &Role) -> (b: bool)
    ensures
        b == list@.contains(*role),
{
    let mut i: usize = 0;
    while i < list.len()
        invariant
            i <= list.len(),
            forall|j: int| 0 <= j < i ==> list[j] != *role,
        decreases list.len() - i,
    {
        if list[i] == *role {
            return true;
        }
        i += 1;
    }
    false
}

fn list_copy(list: &Vec<Role>) -> (c: Vec<Role>)
    ensures
        c@ == list@,
{
    let mut c: Vec<Role> = Vec::new();
    let mut i: usize = 0;
    while i < list.len()
        invariant
            i <= list.len(),
            c@ == list@.take(i as int),
        decreases list.len() - i,
    {
        c.push(list[i]);
        assert(list@.take(i + 1) =~= list@.take(i as int).push(list[i as int]));
        i += 1;
    }
    assert(list@.take(list.len() as int) =~= list@);
    c
}

fn list_without(list: &Vec<Role>, role: &Role) -> (c: Vec<Role>)
    ensures
        c@ == list@.filter(other_than(*role)),
{
    let mut c: Vec<Role> = Vec::new();
    let mut i: usize = 0;
    proof {
        reveal_with_fuel(Seq::filter, 1);
        assert(list@.take(0).len() == 0);
    }
    while i < list.len()
        invariant
            i <= list.len(),
            c@ == list@.take(i as int).filter(other_than(*role)),
        decreases list.len() - i,
    {
        proof {
            reveal_with_fuel(Seq::filter, 1);
            let next = list@.take(i + 1);
            assert(next.drop_last() =~= list@.take(i as int));
            assert(next.last() == list[i as int]);
        }
        if list[i] != *role {
            c.push(list[i]);
        }
        i += 1;
    }
    assert(list@.take(list.len() as int) =~= list@);
    c
}

/// The operations on roles. None of them is a value: the type only groups
/// them.
pub struct AccessControl;

impl AccessControl {
    /// Whether `address` holds `role`. Holding `Admin` does not count for
    /// another role here: that is the business of the checks.
    pub fn has_role(store: &Storage, address: &Principal, role: &Role) -> (b: bool)
        requires
            store.wf(),
        ensures
            b == store.holds(address@, *role),
    {
        match &store.roles {
            Some(table) => match table.get(&address.id) {
                Some(list) => list_contains(list, role),
                None => false,
            },
            None => false,
        }
    }

    /// The roles that `address` holds, in the order in which they were
    /// granted; none where `address` has no entry.
    pub fn get_roles(store: &Storage, address: &Principal) -> (roles: Vec<Role>)
        requires
            store.wf(),
        ensures
            roles@ == store.roles_of(address@),
            store.roles_distinct() ==> roles@.no_duplicates(),
    {
        match &store.roles {
            Some(table) => match table.get(&address.id) {
                Some(list) => list_copy(list),
                None => Vec::new(),
            },
            None => Vec::new(),
        }
    }

    /// Grants `role` to `address`. Only the recorded administrator may do
    /// so: any other `caller`, and any caller while no administrator is
    /// recorded, gets `Unauthorized`, and nothing changes.
    ///
    /// Granting a role that `address` holds succeeds and changes nothing.
    /// Otherwise the role is added to the roles of `address`, and a notice
    /// names `address`, the role and the administrator.
    pub fn grant_role(
        store: &mut Storage,
        events: &mut Events,
        caller: &Principal,
        address: &Principal,
        role: &Role,
    ) -> (r: Result<(), Error>)
        requires
            old(store).wf(),
        ensures
            final(store).wf(),
            old(store).roles_distinct() ==> final(store).roles_distinct(),
            r is Ok <==> is_administrator(old(store), caller@),
            r is Err ==> r == Err::<(), Error>(Error::Unauthorized) && *final(store) == *old(store)
                && final(events)@ == old(events)@,
            r is Ok ==> {
                &&& final(store).holds(address@, *role)
                &&& final(store).role_table() == table_after_grant(
                    old(store).role_table(),
                    address@,
                    *role,
                )
                &&& final(store).admin == old(store).admin
                &&& final(store).certificates == old(store).certificates
                &&& final(store).authorities == old(store).authorities
                &&& final(store).version == old(store).version
                &&& final(events)@ == if old(store).holds(address@, *role) {
                    old(events)@
                } else {
                    old(events)@.push(
                        (EventView::RoleGranted { address: address@, role: *role, granted_by: caller@ }),
                    )
                }
            },
    {
        if !Self::is_admin(store, caller) {
            return Err(Error::Unauthorized);
        }
        if Self::has_role(store, address, role) {
            return Ok(());
        }
        let mut table = match store.roles.take() {
            Some(table) => table,
            None => TextMap::new(),
        };
        let mut list = match table.get(&address.id) {
            Some(list) => list_copy(list),
            None => Vec::new(),
        };
        list.push(*role);
        proof {
            let before = roles_in(old(store).role_table(), address@);
            assert(list@ == before.push(*role));
            assert(list@[before.len() as int] == *role);
            if old(store).roles_distinct() {
                assert(before.no_duplicates());
                assert(list@.no_duplicates());
            }
        }
        table.set(address.id.clone(), list);
        store.roles = Some(table);
        events.role_granted(address, role, caller);
        Ok(())
    }

    /// Takes `role` from `address`. Only the recorded administrator may do
    /// so: any other `caller`, and any caller while no administrator is
    /// recorded, gets `Unauthorized`, and nothing changes.
    ///
    /// Where `address` does not hold the role, the call succeeds and changes
    /// nothing. Otherwise the role leaves the roles of `address`; where none
    /// is left, the entry of `address` goes altogether; and a notice names
    /// `address`, the role and the administrator.
    pub fn revoke_role(
        store: &mut Storage,
        events: &mut Events,
        caller: &Principal,
        address: &Principal,
        role: &Role,
    ) -> (r: Result<(), Error>)
        requires
            old(store).wf(),
        ensures
            final(store).wf(),
            old(store).roles_distinct() ==> final(store).roles_distinct(),
            r is Ok <==> is_administrator(old(store), caller@),
            r is Err ==> r == Err::<(), Error>(Error::Unauthorized) && *final(store) == *old(store)
                && final(events)@ == old(events)@,
            r is Ok ==> {
                &&& !final(store).holds(address@, *role)
                &&& final(store).role_table() == table_after_revoke(
                    old(store).role_table(),
                    address@,
                    *role,
                )
                &&& final(store).admin == old(store).admin
                &&& final(store).certificates == old(store).certificates
                &&& final(store).authorities == old(store).authorities
                &&& final(store).version == old(store).version
                &&& final(events)@ == if old(store).holds(address@, *role) {
                    old(events)@.push(
                        (EventView::RoleRevoked { address: address@, role: *role, revoked_by: caller@ }),
                    )
                } else {
                    old(events)@
                }
            },
    {
        if !Self::is_admin(store, caller) {
            return Err(Error::Unauthorized);
        }
        if !Self::has_role(store, address, role) {
            return Ok(());
        }
        let mut table = match store.roles.take() {
            Some(table) => table,
            None => TextMap::new(),
        };
        let rest = match table.get(&address.id) {
            Some(list) => list_without(list, role),
            None => Vec::new(),
        };
        proof {
            let before = roles_in(old(store).role_table(), address@);
            assert(rest@ == before.filter(other_than(*role)));
            lemma_filter_others(before, *role);
            if old(store).roles_distinct() {
                assert(old(store).role_table().contains_key(address@));
                lemma_filter_distinct(before, *role);
            }
        }
        if rest.len() == 0 {
            table.remove(&address.id);
        } else {
            table.set(address.id.clone(), rest);
        }
        store.roles = Some(table);
        events.role_revoked(address, role, caller);
        Ok(())
    }

    fn is_admin(store: &Storage, caller: &Principal) -> (b: bool)
        ensures
            b == is_administrator(store, caller@),
    {
        match &store.admin {
            Some(admin) => admin.id == caller.id,
            None => false,
        }
    }

    /// The check for one role, with no exception for administrators:
    /// `Unauthorized` unless `caller` holds `role`.
    pub fn require_role(store: &Storage, caller: &Principal, role: &Role) -> (r: Result<(), Error>)
        requires
            store.wf(),
        ensures
            r is Ok <==> store.holds(caller@, *role),
            r is Err ==> r == Err::<(), Error>(Error::Unauthorized),
    {
        if !Self::has_role(store, caller, role) {
            return Err(Error::Unauthorized);
        }
        Ok(())
    }

    /// The check for administrators: `Unauthorized` unless `caller` holds
    /// `Admin`.
    pub fn require_admin(store: &Storage, caller: &Principal) -> (r: Result<(), Error>)
        requires
            store.wf(),
        ensures
            r is Ok <==> store.holds(caller@, Role::Admin),
            r is Err ==> r == Err::<(), Error>(Error::Unauthorized),
    {
        Self::require_role(store, caller, &Roles::ADMIN)
    }

    /// The check for issuers: `Unauthorized` unless `caller` holds `Issuer` or
    /// `Admin`.
    pub fn require_issuer(store: &Storage, caller: &Principal) -> (r: Result<(), Error>)
        requires
            store.wf(),
        ensures
            r is Ok <==> permits(store, caller@, Role::Issuer),
            r is Err ==> r == Err::<(), Error>(Error::Unauthorized),
    {
        if Self::has_role(store, caller, &Roles::ADMIN) {
            return Ok(());
        }
        Self::require_role(store, caller, &Roles::ISSUER)
    }

    /// The check for revokers: `Unauthorized` unless `caller` holds `Revoker`
    /// or `Admin`.
    pub fn require_revoker(store: &Storage, caller: &Principal) -> (r: Result<(), Error>)
        requires
            store.wf(),
        ensures
            r is Ok <==> permits(store, caller@, Role::Revoker),
            r is Err ==> r == Err::<(), Error>(Error::Unauthorized),
    {
        if Self::has_role(store, caller, &Roles::ADMIN) {
            return Ok(());
        }
        Self::require_role(store, caller, &Roles::REVOKER)
    }

    /// The check for managers of certification authorities: `Unauthorized`
    /// unless `caller` holds `AuthorityManager` or `Admin`.
    pub fn require_auth_manager(store: &Storage, caller: &Principal) -> (r: Result<(), Error>)
        requires
            store.wf(),
        ensures
            r is Ok <==> permits(store, caller@, Role::AuthorityManager),
            r is Err ==> r == Err::<(), Error>(Error::Unauthorized),
    {
        if Self::has_role(store, caller, &Roles::ADMIN) {
            return Ok(());
        }
        Self::require_role(store, caller, &Roles::AUTH_MANAGER)
    }
}

/// What is left of a list once `role` is taken out does not hold `role`,
/// and holds every other role that the list held.
pub proof fn lemma_filter_others(list: Seq<Role>, role: Role)
    ensures
        !list.filter(other_than(role)).contains(role),
        forall|r: Role|
            r != role ==> (#[trigger] list.filter(other_than(role)).contains(r) <==> list.contains(r)),
    decreases list.len(),
{
    reveal_with_fuel(Seq::filter, 1);
    let rest = list.filter(other_than(role));
    if list.len() > 0 {
        let front = list.drop_last();
        let kept = front.filter(other_than(role));
        lemma_filter_others(front, role);
        let last = list.last();
        assert(rest == if last != role {
            kept.push(last)
        } else {
            kept
        });
        assert forall|r: Role| r != role implies (rest.contains(r) <==> list.contains(r)) by {
            assert(kept.contains(r) <==> front.contains(r));
            if list.contains(r) {
                let j = choose|j: int| 0 <= j < list.len() && list[j] == r;
                if j < front.len() {
                    assert(front[j] == r);
                    assert(front.contains(r));
                    let k = choose|k: int| 0 <= k < kept.len() && kept[k] == r;
                    assert(rest[k] == r);
                } else {
                    assert(rest[rest.len() - 1] == r);
                }
            }
            if rest.contains(r) {
                let k = choose|k: int| 0 <= k < rest.len() && rest[k] == r;
                if k < kept.len() {
                    assert(kept[k] == r);
                    assert(kept.contains(r));
                    let j = choose|j: int| 0 <= j < front.len() && front[j] == r;
                    assert(list[j] == r);
                } else {
                    assert(list[list.len() - 1] == r);
                }
            }
        }
        if rest.contains(role) {
            let k = choose|k: int| 0 <= k < rest.len() && rest[k] == role;
            if k < kept.len() {
                assert(kept[k] == role);
                assert(kept.contains(role));
            }
        }
    }
}

/// What is left of a list without repetitions, once `role` is taken out, has
/// no repetitions.
pub proof fn lemma_filter_distinct(list: Seq<Role>, role: Role)
    requires
        list.no_duplicates(),
    ensures
        list.filter(other_than(role)).no_duplicates(),
    decreases list.len(),
{
    reveal_with_fuel(Seq::filter, 1);
    let rest = list.filter(other_than(role));
    if list.len() > 0 {
        let front = list.drop_last();
        let kept = front.filter(other_than(role));
        lemma_filter_distinct(front, role);
        lemma_filter_others(front, role);
        let last = list.last();
        if last != role {
            assert(rest == kept.push(last));
            if kept.contains(last) {
                assert(front.contains(last));
                let j = choose|j: int| 0 <= j < front.len() && front[j] == last;
                assert(list[j] == list[list.len() - 1]);
            }
            assert forall|a: int, b: int| 0 <= a < rest.len() && 0 <= b < rest.len() && a != b implies rest[a]
                != rest[b] by {
                if a == kept.len() {
                    assert(kept[b] == rest[b]);
                    assert(kept.contains(rest[b]));
                } else if b == kept.len() {
                    assert(kept[a] == rest[a]);
                    assert(kept.contains(rest[a]));
                } else {
                    assert(kept[a] == rest[a] && kept[b] == rest[b]);
                }
            }
        }
    }
}

} // verus!
