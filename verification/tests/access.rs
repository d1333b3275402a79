use cert_registry::access_control::{AccessControl, Roles};
use cert_registry::events::{Event, Events};
use cert_registry::storage::Storage;
use cert_registry::{Error, Principal, Role, SuperCertificationContract};

fn initialized() -> (Storage, Events, Principal) {
    let mut store = Storage::new();
    let mut events = Events::new();
    let admin = Principal::new("admin");
    SuperCertificationContract::initialize(&mut store, &mut events, &admin).unwrap();
    (store, events, admin)
}

#[test]
fn role_names_stand_for_the_roles() {
    assert_eq!(Roles::ADMIN, Role::Admin);
    assert_eq!(Roles::ISSUER, Role::Issuer);
    assert_eq!(Roles::VERIFIER, Role::Verifier);
    assert_eq!(Roles::REVOKER, Role::Revoker);
    assert_eq!(Roles::AUTH_MANAGER, Role::AuthorityManager);
}

#[test]
fn nobody_holds_a_role_in_an_empty_store() {
    let store = Storage::new();
    let p = Principal::new("p");

    assert_eq!(AccessControl::has_role(&store, &p, &Roles::ADMIN), false);
    assert!(AccessControl::get_roles(&store, &p).is_empty());
    assert_eq!(AccessControl::require_role(&store, &p, &Roles::VERIFIER), Err(Error::Unauthorized));
    assert_eq!(AccessControl::require_admin(&store, &p), Err(Error::Unauthorized));
}

#[test]
fn granted_role_is_held_and_revoked_role_is_not() {
    let (mut store, mut events, admin) = initialized();
    let p = Principal::new("p");
    let all = [Role::Admin, Role::Issuer, Role::Verifier, Role::Revoker, Role::AuthorityManager];

    for role in all.iter() {
        assert_eq!(AccessControl::grant_role(&mut store, &mut events, &admin, &p, role), Ok(()));
        assert_eq!(AccessControl::has_role(&store, &p, role), true);
    }
    assert_eq!(AccessControl::get_roles(&store, &p), all.to_vec());

    for role in all.iter() {
        assert_eq!(AccessControl::revoke_role(&mut store, &mut events, &admin, &p, role), Ok(()));
        assert_eq!(AccessControl::has_role(&store, &p, role), false);
    }
    assert!(AccessControl::get_roles(&store, &p).is_empty());
}

#[test]
fn granting_twice_is_granting_once() {
    let (mut store, mut events, admin) = initialized();
    let p = Principal::new("p");
    AccessControl::grant_role(&mut store, &mut events, &admin, &p, &Roles::VERIFIER).unwrap();
    let once = AccessControl::get_roles(&store, &p);
    let notices = events.log.len();

    assert_eq!(
        AccessControl::grant_role(&mut store, &mut events, &admin, &p, &Roles::VERIFIER),
        Ok(())
    );

    assert_eq!(AccessControl::get_roles(&store, &p), once);
    assert_eq!(AccessControl::get_roles(&store, &p), vec![Role::Verifier]);
    assert_eq!(events.log.len(), notices);
}

#[test]
fn grant_gives_a_notice_naming_the_administrator() {
    let (mut store, mut events, admin) = initialized();
    let p = Principal::new("p");

    AccessControl::grant_role(&mut store, &mut events, &admin, &p, &Roles::REVOKER).unwrap();

    assert_eq!(
        events.log.last(),
        Some(&Event::RoleGranted { address: p.clone(), role: Role::Revoker, granted_by: admin.clone() })
    );
}

#[test]
fn only_the_administrator_grants_and_revokes() {
    let (mut store, mut events, admin) = initialized();
    let p = Principal::new("p");
    let q = Principal::new("q");
    AccessControl::grant_role(&mut store, &mut events, &admin, &p, &Roles::ADMIN).unwrap();
    let notices = events.log.len();

    assert_eq!(
        AccessControl::grant_role(&mut store, &mut events, &q, &q, &Roles::ISSUER),
        Err(Error::Unauthorized)
    );
    assert_eq!(
        AccessControl::grant_role(&mut store, &mut events, &p, &q, &Roles::ISSUER),
        Err(Error::Unauthorized)
    );
    assert_eq!(
        AccessControl::revoke_role(&mut store, &mut events, &q, &admin, &Roles::ADMIN),
        Err(Error::Unauthorized)
    );

    assert_eq!(AccessControl::has_role(&store, &q, &Roles::ISSUER), false);
    assert_eq!(AccessControl::has_role(&store, &admin, &Roles::ADMIN), true);
    assert_eq!(events.log.len(), notices);
}

#[test]
fn nobody_grants_before_initialization() {
    let mut store = Storage::new();
    let mut events = Events::new();
    let p = Principal::new("p");

    assert_eq!(
        AccessControl::grant_role(&mut store, &mut events, &p, &p, &Roles::ADMIN),
        Err(Error::Unauthorized)
    );
    assert_eq!(
        AccessControl::revoke_role(&mut store, &mut events, &p, &p, &Roles::ADMIN),
        Err(Error::Unauthorized)
    );
    assert!(events.log.is_empty());
    assert!(store.roles.is_none());
}

#[test]
fn revoking_a_role_that_is_not_held_changes_nothing() {
    let (mut store, mut events, admin) = initialized();
    let p = Principal::new("p");
    let notices = events.log.len();

    assert_eq!(
        AccessControl::revoke_role(&mut store, &mut events, &admin, &p, &Roles::ISSUER),
        Ok(())
    );
    assert_eq!(events.log.len(), notices);

    AccessControl::grant_role(&mut store, &mut events, &admin, &p, &Roles::VERIFIER).unwrap();
    let notices = events.log.len();
    assert_eq!(
        AccessControl::revoke_role(&mut store, &mut events, &admin, &p, &Roles::ISSUER),
        Ok(())
    );
    assert_eq!(AccessControl::get_roles(&store, &p), vec![Role::Verifier]);
    assert_eq!(events.log.len(), notices);
}

#[test]
fn revoking_the_last_role_removes_the_entry() {
    let (mut store, mut events, admin) = initialized();
    let p = Principal::new("p");
    AccessControl::grant_role(&mut store, &mut events, &admin, &p, &Roles::VERIFIER).unwrap();
    AccessControl::grant_role(&mut store, &mut events, &admin, &p, &Roles::REVOKER).unwrap();
    assert_eq!(store.get_roles().len(), 2);

    AccessControl::revoke_role(&mut store, &mut events, &admin, &p, &Roles::VERIFIER).unwrap();
    assert_eq!(AccessControl::get_roles(&store, &p), vec![Role::Revoker]);
    assert_eq!(store.get_roles().contains_key(&p.id), true);

    AccessControl::revoke_role(&mut store, &mut events, &admin, &p, &Roles::REVOKER).unwrap();
    assert_eq!(store.get_roles().contains_key(&p.id), false);
    assert_eq!(store.get_roles().len(), 1);
    assert_eq!(
        events.log.last(),
        Some(&Event::RoleRevoked { address: p.clone(), role: Role::Revoker, revoked_by: admin.clone() })
    );
}

#[test]
fn administrator_passes_every_check_with_the_admin_role_alone() {
    let (mut store, mut events, admin) = initialized();
    let p = Principal::new("p");
    AccessControl::grant_role(&mut store, &mut events, &admin, &p, &Roles::ADMIN).unwrap();
    assert_eq!(AccessControl::get_roles(&store, &p), vec![Role::Admin]);

    assert_eq!(AccessControl::require_admin(&store, &p), Ok(()));
    assert_eq!(AccessControl::require_issuer(&store, &p), Ok(()));
    assert_eq!(AccessControl::require_revoker(&store, &p), Ok(()));
    assert_eq!(AccessControl::require_auth_manager(&store, &p), Ok(()));
    assert_eq!(AccessControl::has_role(&store, &p, &Roles::ISSUER), false);
    assert_eq!(AccessControl::has_role(&store, &p, &Roles::REVOKER), false);
    assert_eq!(AccessControl::has_role(&store, &p, &Roles::AUTH_MANAGER), false);
    assert_eq!(AccessControl::require_role(&store, &p, &Roles::ISSUER), Err(Error::Unauthorized));
}

#[test]
fn narrow_role_passes_its_own_check_only() {
    let (mut store, mut events, admin) = initialized();
    let p = Principal::new("p");
    AccessControl::grant_role(&mut store, &mut events, &admin, &p, &Roles::REVOKER).unwrap();

    assert_eq!(AccessControl::require_revoker(&store, &p), Ok(()));
    assert_eq!(AccessControl::require_role(&store, &p, &Roles::REVOKER), Ok(()));
    assert_eq!(AccessControl::require_issuer(&store, &p), Err(Error::Unauthorized));
    assert_eq!(AccessControl::require_auth_manager(&store, &p), Err(Error::Unauthorized));
    assert_eq!(AccessControl::require_admin(&store, &p), Err(Error::Unauthorized));

    AccessControl::grant_role(&mut store, &mut events, &admin, &p, &Roles::AUTH_MANAGER).unwrap();
    assert_eq!(AccessControl::require_auth_manager(&store, &p), Ok(()));
}

#[test]
fn roles_of_one_principal_do_not_touch_another() {
    let (mut store, mut events, admin) = initialized();
    let p = Principal::new("p");
    let q = Principal::new("q");
    AccessControl::grant_role(&mut store, &mut events, &admin, &p, &Roles::ISSUER).unwrap();
    AccessControl::grant_role(&mut store, &mut events, &admin, &q, &Roles::ISSUER).unwrap();

    AccessControl::revoke_role(&mut store, &mut events, &admin, &p, &Roles::ISSUER).unwrap();

    assert_eq!(AccessControl::has_role(&store, &p, &Roles::ISSUER), false);
    assert_eq!(AccessControl::has_role(&store, &q, &Roles::ISSUER), true);
    assert_eq!(AccessControl::get_roles(&store, &admin), vec![Role::Admin, Role::Issuer]);
}
