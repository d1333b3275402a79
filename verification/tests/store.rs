use cert_registry::events::Events;
use cert_registry::storage::{
    get_all_certificate_ids, get_certificate, has_admin, has_certificate, set_admin,
    set_certificate, Storage, StorageKeys,
};
use cert_registry::text_map::TextMap;
use cert_registry::{
    CertificateDetails, CertificateMetadata, CertificateStatus, CertificateType,
    CertificationAuthority, Principal, Role, SuperCertificationContract,
};

fn text(s: &str) -> String {
    String::from(s)
}

fn record(owner: &str, description: &str) -> CertificateDetails {
    CertificateDetails {
        owner: Principal::new(owner),
        issuer: Principal::new("issuer"),
        metadata_hash: text("bytes_hash"),
        metadata: CertificateMetadata {
            title: text("title"),
            description: text(description),
            issue_date: 1,
            expiration_date: 0,
            cert_type: CertificateType::Standard,
            custom_fields: vec![(text("grade"), text("A"))],
        },
        status: CertificateStatus::Active,
        signature: [0u8; 64],
        version: 1,
        revocation_reason: None,
        last_updated: 1,
    }
}

#[test]
fn storage_keys_are_the_documented_names() {
    assert_eq!(StorageKeys::ADMIN, "ADMIN");
    assert_eq!(StorageKeys::CERTIFICATES, "CERTS");
    assert_eq!(StorageKeys::AUTHORITIES, "AUTH");
    assert_eq!(StorageKeys::ROLES, "ROLES");
    assert_eq!(StorageKeys::CONFIG, "CONFIG");
    assert_eq!(StorageKeys::VERSION, "VER");
}

#[test]
fn text_map_set_get_remove() {
    let mut m: TextMap<u32> = TextMap::new();
    assert!(m.is_empty());
    assert_eq!(m.len(), 0);
    assert_eq!(m.get(&text("a")), None);

    m.set(text("a"), 1);
    m.set(text("b"), 2);
    m.set(text("c"), 3);
    assert_eq!(m.len(), 3);
    assert_eq!(m.contains_key(&text("b")), true);
    assert_eq!(m.contains_key(&text("z")), false);
    assert_eq!(m.get(&text("b")), Some(&2));

    m.set(text("b"), 20);
    assert_eq!(m.len(), 3);
    assert_eq!(m.get(&text("b")), Some(&20));
    assert_eq!(m.key_at(1), &text("b"));
    assert_eq!(m.value_at(1), &20);

    m.remove(&text("a"));
    assert_eq!(m.len(), 2);
    assert_eq!(m.contains_key(&text("a")), false);
    assert_eq!(m.key_at(0), &text("b"));
    assert_eq!(m.key_at(1), &text("c"));
    assert_eq!(m.value_at(1), &3);

    m.remove(&text("not there"));
    assert_eq!(m.len(), 2);
    assert_eq!(m.is_empty(), false);
}

#[test]
fn new_store_holds_nothing() {
    let store = Storage::new();

    assert_eq!(store.has_admin(), false);
    assert_eq!(has_admin(&store), false);
    assert!(store.certificates.is_none());
    assert!(store.authorities.is_none());
    assert!(store.roles.is_none());
    assert_eq!(store.version, None);
    assert_eq!(has_certificate(&store, &text("c1")), false);
    assert!(get_all_certificate_ids(&store).is_empty());
}

#[test]
fn init_all_makes_every_part_present_once() {
    let mut store = Storage::new();

    store.init_all();

    assert!(store.get_certificates().is_empty());
    assert!(store.get_authorities().is_empty());
    assert!(store.get_roles().is_empty());
    assert_eq!(store.version, Some(1));

    set_certificate(&mut store, &text("c1"), &record("o", "d"));
    store.version = Some(7);
    store.init_all();
    assert_eq!(store.get_certificates().len(), 1);
    assert_eq!(store.version, Some(7));
}

#[test]
fn init_keeps_what_is_there() {
    let mut store = Storage::new();
    let mut roles: TextMap<Vec<Role>> = TextMap::new();
    roles.set(text("p"), vec![Role::Verifier]);
    store.set_roles(roles);
    let mut authorities: TextMap<CertificationAuthority> = TextMap::new();
    authorities.set(
        text("ca"),
        CertificationAuthority {
            name: text("Academy"),
            address: Principal::new("ca"),
            verification_key: [3u8; 32],
            is_active: true,
        },
    );
    store.set_authorities(authorities);

    store.init_roles();
    store.init_authorities();
    store.init_certificates();

    assert_eq!(store.get_roles().get(&text("p")), Some(&vec![Role::Verifier]));
    assert_eq!(store.get_authorities().get(&text("ca")).unwrap().name, text("Academy"));
    assert_eq!(store.get_authorities().get(&text("ca")).unwrap().is_active, true);
    assert!(store.get_certificates().is_empty());
}

#[test]
fn set_certificates_replaces_the_map() {
    let mut store = Storage::new();
    set_certificate(&mut store, &text("old"), &record("o", "d"));
    let mut fresh: TextMap<CertificateDetails> = TextMap::new();
    fresh.set(text("new"), record("p", "e"));

    store.set_certificates(fresh);

    assert_eq!(has_certificate(&store, &text("old")), false);
    assert_eq!(has_certificate(&store, &text("new")), true);
}

#[test]
fn admin_is_set_and_read() {
    let mut store = Storage::new();
    let a = Principal::new("a");
    let b = Principal::new("b");

    store.set_admin(&a);
    assert_eq!(store.has_admin(), true);
    assert_eq!(store.get_admin(), &a);

    set_admin(&mut store, &b);
    assert_eq!(has_admin(&store), true);
    assert_eq!(store.get_admin(), &b);
}

#[test]
fn certificates_are_set_read_and_listed_in_order() {
    let mut store = Storage::new();
    set_certificate(&mut store, &text("z"), &record("o1", "first"));
    set_certificate(&mut store, &text("a"), &record("o2", "second"));

    assert_eq!(has_certificate(&store, &text("z")), true);
    assert_eq!(has_certificate(&store, &text("b")), false);
    assert_eq!(get_certificate(&store, &text("a")), record("o2", "second"));
    assert_eq!(get_all_certificate_ids(&store), vec![text("z"), text("a")]);

    set_certificate(&mut store, &text("z"), &record("o3", "third"));
    assert_eq!(get_certificate(&store, &text("z")), record("o3", "third"));
    assert_eq!(get_all_certificate_ids(&store), vec![text("z"), text("a")]);
}

#[test]
fn clone_of_a_record_is_equal_to_it() {
    let c = record("o", "d");
    let d = c.clone();
    assert_eq!(c, d);
    assert_eq!(d.metadata.custom_fields, vec![(text("grade"), text("A"))]);
    let p = Principal::new("same");
    assert_eq!(p.clone(), p);
    assert_ne!(Principal::new("other"), p);
}

#[test]
fn operations_work_on_a_store_that_was_never_prepared() {
    let mut store = Storage::new();
    let mut events = Events::new();
    let a = Principal::new("a");

    SuperCertificationContract::initialize(&mut store, &mut events, &a).unwrap();
    SuperCertificationContract::issue_certificate(
        &mut store,
        &mut events,
        &a,
        5,
        &text("c"),
        &a,
        &text("m"),
        [0u8; 64],
        CertificateType::Standard,
        0,
    )
    .unwrap();

    assert_eq!(store.get_certificates().len(), 1);
    assert_eq!(store.get_roles().len(), 1);
    assert!(store.authorities.is_none());
}
