//! Certificate construction: the fields the authority sets, and the calls
//! into ssh-key that build and sign the certificate.

use vstd::prelude::*;
use crate::principal::{
    principal_key_id, principal_kind, principal_name, CertKind, PrincipalView, SshPrincipal,
};
use crate::secret::draw_random_bytes;

verus! {

/// Lifetime of an issued certificate, in seconds (three days).
pub const CERT_VALIDITY_SECS: u64 = 60 * 60 * 24 * 3;

/// Failures of the authority's operations.
#[derive(Debug, Clone, Copy, PartialEq, Eq, Structural)]
pub enum CaError {
    /// The signer refused to sign.
    SigningError,
    /// The subject public key could not be encoded into the certificate.
    InvalidSubjectKey,
    /// The certificate type does not match the principal's variant.
    PrincipalCertTypeMismatch,
    /// The random source failed to produce a secret.
    RandomSourceFailure,
    /// Every serial number has been used.
    SerialExhausted,
}

#[verifier::external_type_specification]
#[verifier::external_body]
pub struct ExPrivateKey(ssh_key::PrivateKey);

#[verifier::external_type_specification]
#[verifier::external_body]
pub struct ExPublicKey(ssh_key::PublicKey);

#[verifier::external_type_specification]
#[verifier::external_body]
pub struct ExKeyData(ssh_key::public::KeyData);

#[verifier::external_type_specification]
#[verifier::external_body]
pub struct ExCertificate(ssh_key::Certificate);

#[verifier::external_type_specification]
#[verifier::external_body]
pub struct ExBuilder(ssh_key::certificate::Builder);

/// The fields that the authority sets in a certificate before signing it.
pub struct CertificatePlan {
    pub serial: u64,
    pub key_id: String,
    pub kind: CertKind,
    pub principal: String,
    pub valid_after: u64,
    pub valid_before: u64,
}

/// The fields of a certificate under construction, as ssh-key's builder
/// holds them: a field not yet set is `None`.
pub struct BuilderView {
    pub subject: ssh_key::public::KeyData,
    pub serial: Option<u64>,
    pub kind: Option<CertKind>,
    pub key_id: Option<Seq<char>>,
    pub principals: Option<Seq<Seq<char>>>,
    pub valid_after: u64,
    pub valid_before: u64,
    /// No critical option and no extension has been added.
    pub options_empty: bool,
}

/// The fields of a signed certificate, as its accessors return them.
pub struct CertificateView {
    pub subject: ssh_key::public::KeyData,
    pub serial: u64,
    pub kind: CertKind,
    pub key_id: Seq<char>,
    pub principals: Seq<Seq<char>>,
    pub valid_after: u64,
    pub valid_before: u64,
    /// The certificate has no critical options and no extensions.
    pub options_empty: bool,
    /// The public key of the key that signed the certificate.
    pub signature_key: ssh_key::public::KeyData,
}

/// What the accessors of `Certificate` (`public_key`, `serial`, `cert_type`,
/// `key_id`, `valid_principals`, `valid_after`, `valid_before`,
/// `critical_options`, `extensions`, `signature_key`) return.
pub uninterp spec fn certificate_view(c: ssh_key::Certificate) -> CertificateView;

/// The fields held by a certificate `Builder`.
pub uninterp spec fn builder_view(b: ssh_key::certificate::Builder) -> BuilderView;

/// What `KeyData::from(&PrivateKey)` returns: the public half of the key.
pub uninterp spec fn signing_key_data(k: ssh_key::PrivateKey) -> ssh_key::public::KeyData;

/// What `PrivateKey::public_key` returns.
pub uninterp spec fn derived_public_key(k: ssh_key::PrivateKey) -> ssh_key::PublicKey;

/// What `PublicKey::key_data` returns.
pub uninterp spec fn public_key_data(p: ssh_key::PublicKey) -> ssh_key::public::KeyData;

/// `plan` is the certificate for `principal` with serial number `serial`,
/// issued at `now`: its type is the principal's, its one principal is the
/// principal's name, and it is valid from `now` for three days.
pub open spec fn is_plan_for(
    plan: CertificatePlan,
    principal: PrincipalView,
    serial: u64,
    now: u64,
) -> bool {
    &&& plan.serial == serial
    &&& plan.key_id@ == principal_key_id(principal)
    &&& plan.kind == principal_kind(principal)
    &&& plan.principal@ == principal_name(principal)
    &&& plan.valid_after == now
    &&& plan.valid_before == now + CERT_VALIDITY_SECS
}

/// The certificate that `plan` describes, for `subject`, signed by the key
/// whose public half is `signer`.
pub open spec fn planned_certificate(
    plan: CertificatePlan,
    subject: ssh_key::public::KeyData,
    signer: ssh_key::public::KeyData,
) -> CertificateView {
    CertificateView {
        subject,
        serial: plan.serial,
        kind: plan.kind,
        key_id: plan.key_id@,
        principals: seq![plan.principal@],
        valid_after: plan.valid_after,
        valid_before: plan.valid_before,
        options_empty: true,
        signature_key: signer,
    }
}

/// The certificate for `principal`, of its kind, binding `subject`, with
/// serial number `serial`, valid from `now` for three days, with no options,
/// signed by the key whose public half is `signer`.
pub open spec fn principal_certificate(
    principal: PrincipalView,
    subject: ssh_key::public::KeyData,
    serial: u64,
    now: u64,
    signer: ssh_key::public::KeyData,
) -> CertificateView {
    CertificateView {
        subject,
        serial,
        kind: principal_kind(principal),
        key_id: principal_key_id(principal),
        principals: seq![principal_name(principal)],
        valid_after: now,
        valid_before: (now + CERT_VALIDITY_SECS) as u64,
        options_empty: true,
        signature_key: signer,
    }
}

/// The fields of the certificate of type `kind` for `principal`, issued at
/// `now` with serial number `serial`; a mismatch error when `kind` is not the
/// principal's kind.
pub fn plan_certificate(principal: &SshPrincipal, kind: CertKind, serial: u64, now: u64) -> (r:
    Result<CertificatePlan, CaError>)
    requires
        now + CERT_VALIDITY_SECS <= u64::MAX,
    ensures
        r is Err <==> kind != principal_kind(principal@),
        r matches Err(e) ==> e == CaError::PrincipalCertTypeMismatch,
        r matches Ok(plan) ==> is_plan_for(plan, principal@, serial, now),
{
    if principal.cert_kind() != kind {
        return Err(CaError::PrincipalCertTypeMismatch);
    }
    Ok(
        CertificatePlan {
            serial,
            key_id: principal.key_id(),
            kind,
            principal: principal.name().clone(),
            valid_after: now,
            valid_before: now + CERT_VALIDITY_SECS,
        },
    )
}

/// Relies on ssh-key's `PrivateKey::public_key`, which returns a copy of the
/// stored public key, whose key data is that of `KeyData::from(&PrivateKey)`.
#[verifier::external_body]
pub(crate) fn public_key_of(key: &ssh_key::PrivateKey) -> (r: ssh_key::PublicKey)
    ensures
        r == derived_public_key(*key),
        public_key_data(r) == signing_key_data(*key),
{
    key.public_key().clone()
}

/// Relies on ssh-key's `PublicKey::key_data`: the key data of a public key.
#[verifier::external_body]
pub(crate) fn key_data_of(key: &ssh_key::PublicKey) -> (r: ssh_key::public::KeyData)
    ensures
        r == public_key_data(*key),
{
    key.key_data().clone()
}

/// Relies on ssh-key's `Builder::new`: a builder for a certificate of
/// `subject` with the given nonce, valid from `valid_after` to
/// `valid_before`, with no field set and no option added; `None` where
/// ssh-key rejects the validity window.
#[verifier::external_body]
fn new_builder(
    nonce: &[u8; 32],
    subject: ssh_key::public::KeyData,
    valid_after: u64,
    valid_before: u64,
) -> (r: Option<ssh_key::certificate::Builder>)
    ensures
        r matches Some(b) ==> builder_view(b) == (BuilderView {
            subject,
            serial: None,
            kind: None,
            key_id: None,
            principals: None,
            valid_after,
            valid_before,
            options_empty: true,
        }),
{
    ssh_key::certificate::Builder::new(nonce.to_vec(), subject, valid_after, valid_before).ok()
}

/// Relies on ssh-key's `Builder::serial`: sets the serial number, or fails,
/// changing nothing, where it was set already.
#[verifier::external_body]
fn set_serial(builder: &mut ssh_key::certificate::Builder, serial: u64) -> (r: bool)
    ensures
        r == (builder_view(*old(builder)).serial is None),
        builder_view(*final(builder)) == if r {
            BuilderView { serial: Some(serial), ..builder_view(*old(builder)) }
        } else {
            builder_view(*old(builder))
        },
{
    builder.serial(serial).is_ok()
}

/// Relies on ssh-key's `Builder::key_id`: sets the key id, or fails, changing
/// nothing, where it was set already.
#[verifier::external_body]
fn set_key_id(builder: &mut ssh_key::certificate::Builder, key_id: &String) -> (r: bool)
    ensures
        r == (builder_view(*old(builder)).key_id is None),
        builder_view(*final(builder)) == if r {
            BuilderView { key_id: Some(key_id@), ..builder_view(*old(builder)) }
        } else {
            builder_view(*old(builder))
        },
{
    builder.key_id(key_id.as_str()).is_ok()
}

/// Relies on ssh-key's `Builder::cert_type`: sets the certificate type, or
/// fails, changing nothing, where it was set already.
#[verifier::external_body]
fn set_cert_type(builder: &mut ssh_key::certificate::Builder, kind: CertKind) -> (r: bool)
    ensures
        r == (builder_view(*old(builder)).kind is None),
        builder_view(*final(builder)) == if r {
            BuilderView { kind: Some(kind), ..builder_view(*old(builder)) }
        } else {
            builder_view(*old(builder))
        },
{
    let cert_type = match kind {
        CertKind::User => ssh_key::certificate::CertType::User,
        CertKind::Host => ssh_key::certificate::CertType::Host,
    };
    builder.cert_type(cert_type).is_ok()
}

/// Relies on ssh-key's `Builder::valid_principal`: appends one valid
/// principal; it always succeeds.
#[verifier::external_body]
fn add_valid_principal(builder: &mut ssh_key::certificate::Builder, principal: &String) -> (r:
    bool)
    ensures
        r,
        builder_view(*final(builder)) == (BuilderView {
            principals: Some(
                match builder_view(*old(builder)).principals {
                    Some(ps) => ps.push(principal@),
                    None => seq![principal@],
                },
            ),
            ..builder_view(*old(builder))
        }),
{
    builder.valid_principal(principal.as_str()).is_ok()
}

/// Relies on ssh-key's `Builder::sign`: where principals were given, the
/// certificate carries the builder's fields (an unset serial is 0, an unset
/// type is User, an unset key id is empty) and the public key of the signing
/// key. An encoding failure is reported as an invalid subject key, any other
/// failure as a signing error.
#[verifier::external_body]
fn sign_built(builder: ssh_key::certificate::Builder, key: &ssh_key::PrivateKey) -> (r: Result<
    ssh_key::Certificate,
    CaError,
>)
    ensures
        r matches Ok(c) ==> ({
            let v = builder_view(builder);
            &&& v.principals is Some
            &&& certificate_view(c) == CertificateView {
                subject: v.subject,
                serial: match v.serial {
                    Some(n) => n,
                    None => 0,
                },
                kind: match v.kind {
                    Some(k) => k,
                    None => CertKind::User,
                },
                key_id: match v.key_id {
                    Some(id) => id,
                    None => Seq::empty(),
                },
                principals: v.principals.unwrap(),
                valid_after: v.valid_after,
                valid_before: v.valid_before,
                options_empty: v.options_empty,
                signature_key: signing_key_data(*key),
            }
        }),
        r matches Err(e) ==> e == CaError::InvalidSubjectKey || e == CaError::SigningError,
{
    match builder.sign(key) {
        Ok(cert) => Ok(cert),
        Err(ssh_key::Error::Encoding(_)) => Err(CaError::InvalidSubjectKey),
        Err(_) => Err(CaError::SigningError),
    }
}

/// Builds the certificate of `subject` that `plan` describes, with a fresh
/// random nonce, and signs it with `key`.
pub fn sign_plan(
    plan: &CertificatePlan,
    subject: ssh_key::public::KeyData,
    key: &ssh_key::PrivateKey,
) -> (r: Result<ssh_key::Certificate, CaError>)
    ensures
        r matches Ok(c) ==> certificate_view(c) == planned_certificate(
            *plan,
            subject,
            signing_key_data(*key),
        ),
        r matches Err(e) ==> e == CaError::InvalidSubjectKey || e == CaError::SigningError
            || e == CaError::RandomSourceFailure,
{
    let nonce = match draw_random_bytes() {
        Some(n) => n,
        None => return Err(CaError::RandomSourceFailure),
    };
    let mut builder = match new_builder(&nonce, subject, plan.valid_after, plan.valid_before) {
        Some(b) => b,
        None => return Err(CaError::SigningError),
    };
    let ok_serial = set_serial(&mut builder, plan.serial);
    let ok_key_id = set_key_id(&mut builder, &plan.key_id);
    let ok_kind = set_cert_type(&mut builder, plan.kind);
    let ok_principal = add_valid_principal(&mut builder, &plan.principal);
    assert(ok_serial && ok_key_id && ok_kind && ok_principal);
    let r = sign_built(builder, key);
    proof {
        if r is Ok {
            assert(certificate_view(r.unwrap()) =~= planned_certificate(
                *plan,
                subject,
                signing_key_data(*key),
            ));
        }
    }
    r
}

} // verus!
