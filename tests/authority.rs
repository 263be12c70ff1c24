use ssh_ca::{
    CaError, CertKind, SecretStore, SshCertificateAuthority, SshPrincipal, CERT_VALIDITY_SECS,
    PROVISIONING_VALIDITY_SECS,
};
use ssh_ca::ProvisioningSecret;
use ssh_key::certificate::CertType;
use ssh_key::public::KeyData;
use ssh_key::rand_core::OsRng;
use ssh_key::{Algorithm, HashAlg, PrivateKey};

const T0: u64 = 1_700_000_000;

fn authority() -> SshCertificateAuthority {
    let key = PrivateKey::random(&mut OsRng, Algorithm::Ed25519).expect("ca key");
    SshCertificateAuthority::new(key)
}

fn subject_key() -> KeyData {
    let key = PrivateKey::random(&mut OsRng, Algorithm::Ed25519).expect("subject key");
    key.public_key().key_data().clone()
}

fn user(name: &str) -> SshPrincipal {
    SshPrincipal::Username(name.to_string())
}

fn host(name: &str) -> SshPrincipal {
    SshPrincipal::Hostname(name.to_string())
}

#[test]
fn happy_user_path() {
    let mut ca = authority();
    let alice = user("alice");
    let s = ca.new_secret_for_principal(&alice, T0).unwrap();
    assert!(ca.validate_challenge(&alice, &s, T0));
    let cert = ca.sign(subject_key(), CertKind::User, alice, T0).unwrap();
    let fingerprint = ca.public_key().fingerprint(HashAlg::Sha256);
    assert!(cert.validate_at(T0 + 1, [&fingerprint]).is_ok());
    let encoded = cert.to_openssh().unwrap();
    let parsed = ssh_key::Certificate::from_openssh(&encoded).unwrap();
    assert_eq!(parsed.valid_principals().to_vec(), vec!["alice".to_string()]);
    assert_eq!(parsed.cert_type(), CertType::User);
    assert_eq!(parsed.valid_before() - parsed.valid_after(), 3 * 24 * 60 * 60);
    assert_eq!(parsed.key_id(), "user:alice");
}

#[test]
fn replay_rejection() {
    let mut ca = authority();
    let web = host("web-01");
    let s = ca.new_secret_for_principal(&web, T0).unwrap();
    assert!(ca.validate_challenge(&web, &s, T0));
    assert!(!ca.validate_challenge(&web, &s, T0));
}

#[test]
fn expiry() {
    let mut ca = authority();
    let bob = user("bob");
    let s = ca.new_secret_for_principal(&bob, T0).unwrap();
    assert!(!ca.validate_challenge(&bob, &s, T0 + 3 * 60 + 1));
}

#[test]
fn expiry_boundary() {
    let mut ca = authority();
    let bob = user("bob");
    let s = ca.new_secret_for_principal(&bob, T0).unwrap();
    assert!(!ca.validate_challenge(&bob, &s, T0 + PROVISIONING_VALIDITY_SECS));
    assert!(ca.validate_challenge(&bob, &s, T0 + PROVISIONING_VALIDITY_SECS - 1));
}

#[test]
fn absent_principal() {
    let mut ca = authority();
    assert!(!ca.validate_challenge(&user("eve"), &[7u8; 32], T0));
    assert!(!ca.validate_challenge(&user("eve"), &[0u8; 32], T0));
}

#[test]
fn principal_cert_type_mismatch() {
    let mut ca = authority();
    let alice = user("alice");
    let s = ca.new_secret_for_principal(&alice, T0).unwrap();
    assert!(ca.validate_challenge(&alice, &s, T0));
    let r = ca.sign(subject_key(), CertKind::Host, alice, T0);
    assert!(matches!(r, Err(CaError::PrincipalCertTypeMismatch)));
    let r = ca.sign(subject_key(), CertKind::User, host("web-01"), T0);
    assert!(matches!(r, Err(CaError::PrincipalCertTypeMismatch)));
}

#[test]
fn reissue_invalidates_prior() {
    let mut ca = authority();
    let carol = user("carol");
    let s1 = ca.new_secret_for_principal(&carol, T0).unwrap();
    let s2 = ca.new_secret_for_principal(&carol, T0).unwrap();
    assert_ne!(s1, s2);
    assert!(!ca.validate_challenge(&carol, &s1, T0));
    assert!(ca.validate_challenge(&carol, &s2, T0));
}

#[test]
fn wrong_secret_leaves_entry() {
    let mut ca = authority();
    let dave = user("dave");
    let s = ca.new_secret_for_principal(&dave, T0).unwrap();
    let mut wrong = s;
    wrong[31] ^= 1;
    assert!(!ca.validate_challenge(&dave, &wrong, T0));
    assert!(ca.validate_challenge(&dave, &s, T0));
}

#[test]
fn variants_are_distinct_principals() {
    let mut ca = authority();
    let s = ca.new_secret_for_principal(&user("same"), T0).unwrap();
    assert!(!ca.validate_challenge(&host("same"), &s, T0));
    assert!(ca.validate_challenge(&user("same"), &s, T0));
}

#[test]
fn host_certificate_fields() {
    let mut ca = authority();
    let cert = ca.sign(subject_key(), CertKind::Host, host("web-01.example.com"), T0).unwrap();
    assert_eq!(cert.cert_type(), CertType::Host);
    assert_eq!(cert.valid_after(), T0);
    assert_eq!(cert.valid_before(), T0 + CERT_VALIDITY_SECS);
    assert_eq!(cert.valid_principals().to_vec(), vec!["web-01.example.com".to_string()]);
    assert_eq!(cert.key_id(), "host:web-01.example.com");
    assert!(cert.critical_options().is_empty());
    assert!(cert.extensions().is_empty());
    let fingerprint = ca.public_key().fingerprint(HashAlg::Sha256);
    assert!(cert.validate_at(T0, [&fingerprint]).is_ok());
}

#[test]
fn certificate_does_not_verify_under_other_key() {
    let mut ca = authority();
    let other = authority();
    let cert = ca.sign(subject_key(), CertKind::User, user("alice"), T0).unwrap();
    let fingerprint = other.public_key().fingerprint(HashAlg::Sha256);
    assert!(cert.validate_at(T0, [&fingerprint]).is_err());
}

#[test]
fn serials_increase() {
    let mut ca = authority();
    assert_eq!(ca.next_serial(), 1);
    let c1 = ca.sign(subject_key(), CertKind::User, user("a"), T0).unwrap();
    let c2 = ca.sign(subject_key(), CertKind::User, user("b"), T0).unwrap();
    assert_eq!(c1.serial(), 1);
    assert_eq!(c2.serial(), 2);
    assert_eq!(ca.next_serial(), 3);
    let _ = ca.sign(subject_key(), CertKind::Host, user("c"), T0);
    assert_eq!(ca.next_serial(), 3);
}

#[test]
fn plan_fields() {
    let plan = ssh_ca::certificate::plan_certificate(&user("alice"), CertKind::User, 9, 100).unwrap();
    assert_eq!(plan.serial, 9);
    assert_eq!(plan.key_id, "user:alice");
    assert_eq!(plan.kind, CertKind::User);
    assert_eq!(plan.principal, "alice");
    assert_eq!(plan.valid_after, 100);
    assert_eq!(plan.valid_before, 100 + 259200);
    let bad = ssh_ca::certificate::plan_certificate(&user("alice"), CertKind::Host, 9, 100);
    assert!(matches!(bad, Err(CaError::PrincipalCertTypeMismatch)));
}

#[test]
fn secret_validity_and_matching() {
    let s = ProvisioningSecret::from_random_bytes([5u8; 32], 1000);
    assert_eq!(s.valid_until(), 1180);
    assert!(s.is_valid(1179));
    assert!(!s.is_valid(1180));
    assert!(s.matches(&[5u8; 32]));
    let mut other = [5u8; 32];
    other[0] = 6;
    assert!(!s.matches(&other));
    assert_eq!(s.secret(), &[5u8; 32]);
}

#[test]
fn secret_clear_zeroes() {
    let mut s = ProvisioningSecret::from_random_bytes([9u8; 32], 0);
    s.clear();
    assert_eq!(s.secret(), &[0u8; 32]);
    assert_eq!(s.valid_until(), 180);
}

#[test]
fn fresh_secrets_differ() {
    let a = ProvisioningSecret::new(T0).unwrap();
    let b = ProvisioningSecret::new(T0).unwrap();
    assert_ne!(a.secret(), b.secret());
    assert_eq!(a.valid_until(), T0 + 180);
}

#[test]
fn store_put_take_peek() {
    let mut store = SecretStore::new();
    store.put(user("x"), ProvisioningSecret::from_random_bytes([1u8; 32], 0));
    store.put(user("x"), ProvisioningSecret::from_random_bytes([2u8; 32], 0));
    store.put(host("x"), ProvisioningSecret::from_random_bytes([3u8; 32], 0));
    assert_eq!(store.peek(&user("x")).unwrap().secret(), &[2u8; 32]);
    assert_eq!(store.take(&host("x")).unwrap().secret(), &[3u8; 32]);
    assert!(store.peek(&host("x")).is_none());
    assert!(store.take(&host("x")).is_none());
    assert!(store.peek(&user("y")).is_none());
}

#[test]
fn principal_helpers() {
    assert_eq!(user("alice").key_id(), "user:alice");
    assert_eq!(host("web-01").key_id(), "host:web-01");
    assert_eq!(host("web-01").name(), "web-01");
    assert_eq!(user("alice").cert_kind(), CertKind::User);
    assert_eq!(host("web-01").cert_kind(), CertKind::Host);
    assert!(user("a") == user("a"));
    assert!(user("a") != host("a"));
    assert!(user("a") != user("b"));
    assert!(user("a").clone() == user("a"));
}

#[test]
fn certificate_binds_subject_and_ca_key() {
    let mut ca = authority();
    let subject = subject_key();
    let cert = ca.sign(subject.clone(), CertKind::User, user("alice"), T0).unwrap();
    assert_eq!(cert.public_key(), &subject);
    assert_eq!(cert.signature_key(), &ca.public_key_data());
    assert_eq!(&ca.public_key_data(), ca.public_key().key_data());
}

