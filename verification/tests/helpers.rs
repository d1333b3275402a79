use cert_registry::errors::Error;
use cert_registry::events::{
    emit_certificate_issued, emit_certificate_revoked, emit_status_changed, Event, EventTopics,
    Events,
};
use cert_registry::utils::{bytes_to_string, hash_metadata, hex_char, Utils};
use cert_registry::{
    CertificateDetails, CertificateMetadata, CertificateStatus, CertificateType, Principal,
};

fn text(s: &str) -> String {
    String::from(s)
}

fn record(status: CertificateStatus, expiration_date: u64) -> CertificateDetails {
    CertificateDetails {
        owner: Principal::new("owner"),
        issuer: Principal::new("issuer"),
        metadata_hash: text("H"),
        metadata: CertificateMetadata {
            title: text("title"),
            description: text("description"),
            issue_date: 10,
            expiration_date,
            cert_type: CertificateType::Technical,
            custom_fields: Vec::new(),
        },
        status,
        signature: [0u8; 64],
        version: 1,
        revocation_reason: None,
        last_updated: 10,
    }
}

#[test]
fn hex_char_of_every_nibble() {
    let digits = b"0123456789abcdef";
    for nibble in 0u8..16 {
        assert_eq!(hex_char(nibble), digits[nibble as usize]);
    }
    assert_eq!(hex_char(0), b'0');
    assert_eq!(hex_char(9), b'9');
    assert_eq!(hex_char(10), b'a');
    assert_eq!(hex_char(15), b'f');
}

#[test]
fn hex_char_of_a_value_that_is_no_nibble() {
    assert_eq!(hex_char(16), b'?');
    assert_eq!(hex_char(255), b'?');
}

#[test]
fn digest_is_the_placeholder() {
    assert_eq!(hash_metadata(&text("c1"), &text("metadata")), [0u8; 32]);
    assert_eq!(Utils::hash_metadata(&text("other"), &text("")), [0u8; 32]);
    assert_eq!(bytes_to_string(&[0u8; 32]), text("bytes_hash"));
    assert_eq!(bytes_to_string(&[255u8; 32]), text("bytes_hash"));
}

#[test]
fn metadata_must_not_be_empty() {
    assert_eq!(Utils::validate_metadata(&text("")), Err(Error::InvalidMetadata));
    assert_eq!(Utils::validate_metadata(&text("x")), Ok(()));
    assert_eq!(Utils::validate_metadata(&text(" ")), Ok(()));
}

#[test]
fn truncate_string_keeps_the_text_whole() {
    assert_eq!(Utils::truncate_string(&text("short"), 10), text("short"));
    assert_eq!(Utils::truncate_string(&text("a longer text"), 4), text("a longer text"));
    assert_eq!(Utils::truncate_string(&text(""), 0), text(""));
}

#[test]
fn expiry_compares_with_the_time_given() {
    let c = record(CertificateStatus::Active, 100);
    assert_eq!(Utils::is_certificate_expired(&c, 99), false);
    assert_eq!(Utils::is_certificate_expired(&c, 100), false);
    assert_eq!(Utils::is_certificate_expired(&c, 101), true);
    assert_eq!(Utils::is_certificate_expired(&c, u64::MAX), true);
}

#[test]
fn expiration_date_zero_never_expires() {
    let c = record(CertificateStatus::Active, 0);
    assert_eq!(Utils::is_certificate_expired(&c, 0), false);
    assert_eq!(Utils::is_certificate_expired(&c, u64::MAX), false);
    assert_eq!(Utils::is_certificate_valid(&c, u64::MAX), true);
}

#[test]
fn expired_certificate_is_invalid_while_its_status_reads_active() {
    let c = record(CertificateStatus::Active, 100);

    assert_eq!(Utils::is_certificate_valid(&c, 100), true);
    assert_eq!(Utils::is_certificate_valid(&c, 500), false);
    assert_eq!(c.status, CertificateStatus::Active);

    let v = Utils::create_verification_result(Some(&c), &text("H"), true, 500);
    assert_eq!(v.is_valid, false);
    assert_eq!(v.status, Some(CertificateStatus::Active));
}

#[test]
fn only_active_certificates_are_valid() {
    assert_eq!(Utils::is_certificate_valid(&record(CertificateStatus::Active, 0), 5), true);
    assert_eq!(Utils::is_certificate_valid(&record(CertificateStatus::Revoked, 0), 5), false);
    assert_eq!(Utils::is_certificate_valid(&record(CertificateStatus::Expired, 0), 5), false);
    assert_eq!(Utils::is_certificate_valid(&record(CertificateStatus::Suspended, 0), 5), false);
}

#[test]
fn verdict_parts_are_independent() {
    let revoked = record(CertificateStatus::Revoked, 0);

    let v = Utils::create_verification_result(Some(&revoked), &text("H"), true, 50);
    assert_eq!(v.exists, true);
    assert_eq!(v.hash_valid, true);
    assert_eq!(v.signature_valid, true);
    assert_eq!(v.is_valid, false);
    assert_eq!(v.status, Some(CertificateStatus::Revoked));
    assert_eq!(v.owner, Some(Principal::new("owner")));
    assert_eq!(v.issuer, Some(Principal::new("issuer")));

    let active = record(CertificateStatus::Active, 0);
    let v = Utils::create_verification_result(Some(&active), &text("not H"), false, 50);
    assert_eq!(v.is_valid, true);
    assert_eq!(v.hash_valid, false);
    assert_eq!(v.signature_valid, false);
}

#[test]
fn verdict_without_a_certificate() {
    let v = Utils::create_verification_result(None, &text("H"), true, 50);
    assert_eq!(v.exists, false);
    assert_eq!(v.is_valid, false);
    assert_eq!(v.hash_valid, false);
    assert_eq!(v.signature_valid, false);
    assert_eq!(v.status, None);
    assert_eq!(v.owner, None);
    assert_eq!(v.issuer, None);
}

#[test]
fn error_codes_are_numbered_from_one() {
    assert_eq!(Error::Unauthorized.code(), 1);
    assert_eq!(Error::CertificateAlreadyExists.code(), 2);
    assert_eq!(Error::CertificateNotFound.code(), 3);
    assert_eq!(Error::AlreadyInitialized.code(), 4);
    assert_eq!(Error::AuthorityAlreadyExists.code(), 5);
    assert_eq!(Error::AuthorityNotFound.code(), 6);
    assert_eq!(Error::AuthorityInactive.code(), 7);
    assert_eq!(Error::CertificateExpired.code(), 8);
    assert_eq!(Error::CertificateRevoked.code(), 9);
    assert_eq!(Error::CertificateSuspended.code(), 10);
    assert_eq!(Error::VerificationFailed.code(), 11);
    assert_eq!(Error::InvalidSignature.code(), 12);
    assert_eq!(Error::InvalidMetadata.code(), 13);
    assert_eq!(Error::RoleAlreadyExists.code(), 14);
    assert_eq!(Error::RoleNotFound.code(), 15);
    assert_eq!(Error::BatchOperationFailed.code(), 16);
    assert_eq!(Error::InvalidCertificateType.code(), 17);
    assert_eq!(Error::InvalidCertificateStatus.code(), 18);
    assert_eq!(Error::OperationNotSupported.code(), 19);
    assert_eq!(Error::InvalidParameter.code(), 20);
    assert!(Error::Unauthorized < Error::InvalidParameter);
}

#[test]
fn notices_are_logged_in_order_under_their_topics() {
    let mut events = Events::new();
    let a = Principal::new("a");
    let b = Principal::new("b");

    emit_certificate_issued(&mut events, &text("c1"), &b, &a, &CertificateType::Custom);
    emit_status_changed(
        &mut events,
        &text("c1"),
        &CertificateStatus::Active,
        &CertificateStatus::Suspended,
        &a,
    );
    emit_certificate_revoked(&mut events, &text("c1"), &a, &Some(text("fraud")));
    events.authority_added(&b, &a);
    events.authority_updated(&b, &a);
    events.contract_upgraded(&1, &2, &a);

    assert_eq!(events.log.len(), 6);
    assert_eq!(
        events.log[0],
        Event::CertificateIssued {
            cert_id: text("c1"),
            owner: b.clone(),
            issuer: a.clone(),
            cert_type: CertificateType::Custom,
        }
    );
    assert_eq!(
        events.log[2],
        Event::CertificateRevoked {
            cert_id: text("c1"),
            revoked_by: a.clone(),
            reason: Some(text("fraud")),
        }
    );
    assert_eq!(
        events.log[5],
        Event::ContractUpgraded { old_version: 1, new_version: 2, upgraded_by: a.clone() }
    );
    let topics: Vec<&str> = events.log.iter().map(|e| e.topic()).collect();
    assert_eq!(
        topics,
        vec![
            EventTopics::CERTIFICATE_ISSUED,
            EventTopics::STATUS_CHANGED,
            EventTopics::CERTIFICATE_REVOKED,
            EventTopics::AUTHORITY_ADDED,
            EventTopics::AUTHORITY_UPDATED,
            EventTopics::CONTRACT_UPGRADED,
        ]
    );
    assert_eq!(topics, vec!["CERT_ISS", "STATUS_C", "CERT_REV", "AUTH_ADD", "AUTH_UPD", "UPGRADED"]);
    assert_eq!(EventTopics::ROLE_GRANTED, "ROLE_GRT");
    assert_eq!(EventTopics::ROLE_REVOKED, "ROLE_REV");
}
