//! Principals: the user or host identity that a certificate is issued for.

use vstd::prelude::*;

verus! {

/// A user principal (a login name) or a host principal (a host name).
#[derive(Debug, Hash)]
pub enum SshPrincipal {
    Username(String),
    Hostname(String),
}

/// The abstract value of a principal: its variant and its name.
pub enum PrincipalView {
    User(Seq<char>),
    Host(Seq<char>),
}

/// The two kinds of SSH certificate.
#[derive(Debug, Clone, Copy, PartialEq, Eq, Structural, Hash)]
pub enum CertKind {
    User,
    Host,
}

impl View for SshPrincipal {
    type V = PrincipalView;

    open spec fn view(&self) -> PrincipalView {
        match self {
            SshPrincipal::Username(name) => PrincipalView::User(name@),
            SshPrincipal::Hostname(name) => PrincipalView::Host(name@),
        }
    }
}

/// The name a principal carries, whatever its variant.
pub open spec fn principal_name(p: PrincipalView) -> Seq<char> {
    match p {
        PrincipalView::User(name) => name,
        PrincipalView::Host(name) => name,
    }
}

/// The kind of certificate that a principal may receive.
pub open spec fn principal_kind(p: PrincipalView) -> CertKind {
    match p {
        PrincipalView::User(_) => CertKind::User,
        PrincipalView::Host(_) => CertKind::Host,
    }
}

/// The key id recorded in a certificate for a principal: `user:<name>` or
/// `host:<name>`.
pub open spec fn principal_key_id(p: PrincipalView) -> Seq<char> {
    match p {
        PrincipalView::User(name) => "user:"@ + name,
        PrincipalView::Host(name) => "host:"@ + name,
    }
}

impl PartialEq for SshPrincipal {
    fn eq(&self, other: &SshPrincipal) -> (r: bool) {
        match (self, other) {
            (SshPrincipal::Username(a), SshPrincipal::Username(b)) => a.eq(b),
            (SshPrincipal::Hostname(a), SshPrincipal::Hostname(b)) => a.eq(b),
            _ => false,
        }
    }
}

impl vstd::std_specs::cmp::PartialEqSpecImpl for SshPrincipal {
    open spec fn obeys_eq_spec() -> bool {
        true
    }

    open spec fn eq_spec(&self, other: &SshPrincipal) -> bool {
        self@ == other@
    }
}

impl Eq for SshPrincipal {
}

impl Clone for SshPrincipal {
    fn clone(&self) -> (r: SshPrincipal)
        ensures
            r@ == self@,
    {
        match self {
            SshPrincipal::Username(name) => SshPrincipal::Username(name.clone()),
            SshPrincipal::Hostname(name) => SshPrincipal::Hostname(name.clone()),
        }
    }
}

impl SshPrincipal {
    /// The name carried by the principal.
    pub fn name(&self) -> (r: &String)
        ensures
            r@ == principal_name(self@),
    {
        match self {
            SshPrincipal::Username(name) => name,
            SshPrincipal::Hostname(name) => name,
        }
    }

    /// The kind of certificate this principal may receive.
    pub fn cert_kind(&self) -> (r: CertKind)
        ensures
            r == principal_kind(self@),
    {
        match self {
            SshPrincipal::Username(_) => CertKind::User,
            SshPrincipal::Hostname(_) => CertKind::Host,
        }
    }

    /// The key id for this principal: `user:<name>` or `host:<name>`.
    pub fn key_id(&self) -> (r: String)
        ensures
            r@ == principal_key_id(self@),
    {
        match self {
            SshPrincipal::Username(name) => String::from_str("user:").concat(name.as_str()),
            SshPrincipal::Hostname(name) => String::from_str("host:").concat(name.as_str()),
        }
    }
}

} // verus!
