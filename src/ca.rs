//! The certificate authority: issues provisioning secrets, validates
//! challenges against them, and signs certificates.

use vstd::prelude::*;
use crate::certificate::{
    certificate_view, derived_public_key, key_data_of, plan_certificate, principal_certificate,
    public_key_data, public_key_of, sign_plan, signing_key_data, CaError, CERT_VALIDITY_SECS,
};
use crate::principal::{principal_kind, CertKind, PrincipalView, SshPrincipal};
use crate::secret::{fresh_secret, ProvisioningSecret, SecretView, PROVISIONING_VALIDITY_SECS};
use crate::store::SecretStore;

verus! {

/// Whether a challenge with `offered` for `principal` at `now` succeeds
/// against `secrets`: a secret is stored for the principal, it equals
/// `offered`, and it is still valid.
pub open spec fn challenge_accepted(
    secrets: Map<PrincipalView, SecretView>,
    principal: PrincipalView,
    offered: Seq<u8>,
    now: u64,
) -> bool {
    &&& secrets.contains_key(principal)
    &&& secrets[principal].secret == offered
    &&& now < secrets[principal].valid_until
}

/// The stored secrets after such a challenge: a successful one consumes the
/// principal's secret, a failed one changes nothing.
pub open spec fn secrets_after_challenge(
    secrets: Map<PrincipalView, SecretView>,
    principal: PrincipalView,
    offered: Seq<u8>,
    now: u64,
) -> Map<PrincipalView, SecretView> {
    if challenge_accepted(secrets, principal, offered, now) {
        secrets.remove(principal)
    } else {
        secrets
    }
}

/// An SSH certificate authority: its signing key, the provisioning secrets
/// it has issued, and the next serial number.
pub struct SshCertificateAuthority {
    ca_signing_key: ssh_key::PrivateKey,
    ca_public_key: ssh_key::PublicKey,
    principal_provisioning_secrets: SecretStore,
    next_serial: u64,
}

impl SshCertificateAuthority {
    /// The authority's internal invariant.
    pub closed spec fn wf(&self) -> bool {
        &&& self.principal_provisioning_secrets.wf()
        &&& self.ca_public_key == derived_public_key(self.ca_signing_key)
        &&& public_key_data(self.ca_public_key) == signing_key_data(self.ca_signing_key)
    }

    /// The key the authority signs with.
    pub closed spec fn signing_key(&self) -> ssh_key::PrivateKey {
        self.ca_signing_key
    }

    /// The provisioning secrets currently stored, by principal.
    pub closed spec fn secrets(&self) -> Map<PrincipalView, SecretView> {
        self.principal_provisioning_secrets@
    }

    /// The serial number the next certificate will carry.
    pub closed spec fn serial_counter(&self) -> u64 {
        self.next_serial
    }

    /// An authority that signs with `ca_signing_key`, with no secrets issued
    /// and serial numbers starting at 1.
    pub fn new(ca_signing_key: ssh_key::PrivateKey) -> (r: SshCertificateAuthority)
        ensures
            r.wf(),
            r.signing_key() == ca_signing_key,
            r.secrets() == Map::<PrincipalView, SecretView>::empty(),
            r.serial_counter() == 1,
    {
        let ca_public_key = public_key_of(&ca_signing_key);
        SshCertificateAuthority {
            ca_signing_key,
            ca_public_key,
            principal_provisioning_secrets: SecretStore::new(),
            next_serial: 1,
        }
    }

    /// The authority's public key, which clients trust.
    pub fn public_key(&self) -> (r: &ssh_key::PublicKey)
        requires
            self.wf(),
        ensures
            *r == derived_public_key(self.signing_key()),
            public_key_data(*r) == signing_key_data(self.signing_key()),
    {
        &self.ca_public_key
    }

    /// The key data of the authority's public key: the key that signs every
    /// certificate it issues.
    pub fn public_key_data(&self) -> (r: ssh_key::public::KeyData)
        requires
            self.wf(),
        ensures
            r == signing_key_data(self.signing_key()),
    {
        key_data_of(&self.ca_public_key)
    }

    /// The serial number the next certificate will carry.
    pub fn next_serial(&self) -> (r: u64)
        ensures
            r == self.serial_counter(),
    {
        self.next_serial
    }

    /// Draws a fresh provisioning secret for `principal`, valid for three
    /// minutes from `now`, stores it in place of any earlier one and returns
    /// its bytes. When the random source fails nothing changes.
    pub fn new_secret_for_principal(&mut self, principal: &SshPrincipal, now: u64) -> (r: Result<
        [u8; 32],
        CaError,
    >)
        requires
            old(self).wf(),
            now + PROVISIONING_VALIDITY_SECS <= u64::MAX,
        ensures
            final(self).wf(),
            final(self).serial_counter() == old(self).serial_counter(),
            r matches Ok(s) ==> final(self).secrets() == old(self).secrets().insert(
                principal@,
                fresh_secret(s@, now),
            ),
            r matches Err(e) ==> e == CaError::RandomSourceFailure && final(self).secrets()
                == old(self).secrets(),
    {
        match ProvisioningSecret::new(now) {
            Some(secret) => {
                let bytes = *secret.secret();
                self.principal_provisioning_secrets.put(principal.clone(), secret);
                Ok(bytes)
            },
            None => Err(CaError::RandomSourceFailure),
        }
    }

    /// Checks `offered_secret` against the secret stored for `principal` at
    /// `now`. True exactly when a secret is stored, equals the offer and has
    /// not expired; the secret is then consumed. A failure, whatever its
    /// cause, changes nothing. The comparison runs in constant time, against
    /// a zero buffer when no secret is stored, and its outcome is combined
    /// with presence and expiry without short-circuiting.
    pub fn validate_challenge(
        &mut self,
        principal: &SshPrincipal,
        offered_secret: &[u8; 32],
        now: u64,
    ) -> (r: bool)
        requires
            old(self).wf(),
        ensures
            final(self).wf(),
            final(self).serial_counter() == old(self).serial_counter(),
            r == challenge_accepted(old(self).secrets(), principal@, offered_secret@, now),
            final(self).secrets() == secrets_after_challenge(
                old(self).secrets(),
                principal@,
                offered_secret@,
                now,
            ),
    {
        let dummy = ProvisioningSecret::from_random_bytes([0u8; 32], 0);
        let stored = self.principal_provisioning_secrets.peek(principal);
        let present = stored.is_some();
        let candidate = match stored {
            Some(s) => s,
            None => &dummy,
        };
        let secret_is_correct = candidate.matches(offered_secret);
        let still_valid = candidate.is_valid(now);
        let a = present as u8;
        let b = secret_is_correct as u8;
        let c = still_valid as u8;
        let combined = a & b & c;
        assert((a & b & c == 1u8) == (a == 1u8 && b == 1u8 && c == 1u8)) by (bit_vector)
            requires
                a <= 1u8,
                b <= 1u8,
                c <= 1u8,
        ;
        let accepted = combined == 1u8;
        if accepted {
            match self.principal_provisioning_secrets.take(principal) {
                Some(mut used) => used.clear(),
                None => {},
            }
        }
        accepted
    }

    /// Signs a certificate of type `cert_type` binding `subject_public_key` to
    /// `principal`, valid from `now` for three days, with the next serial
    /// number. The type must match the principal's variant. Each attempt
    /// whose type matches takes a serial number, so none is used twice.
    pub fn sign(
        &mut self,
        subject_public_key: ssh_key::public::KeyData,
        cert_type: CertKind,
        principal: SshPrincipal,
        now: u64,
    ) -> (r: Result<ssh_key::Certificate, CaError>)
        requires
            old(self).wf(),
            now + CERT_VALIDITY_SECS <= i64::MAX as u64,
        ensures
            final(self).wf(),
            final(self).signing_key() == old(self).signing_key(),
            final(self).secrets() == old(self).secrets(),
            cert_type != principal_kind(principal@) ==> r == Err::<
                ssh_key::Certificate,
                CaError,
            >(CaError::PrincipalCertTypeMismatch) && final(self).serial_counter() == old(
                self,
            ).serial_counter(),
            cert_type == principal_kind(principal@) && old(self).serial_counter() == u64::MAX
                ==> r == Err::<ssh_key::Certificate, CaError>(CaError::SerialExhausted)
                && final(self).serial_counter() == old(self).serial_counter(),
            cert_type == principal_kind(principal@) && old(self).serial_counter() < u64::MAX
                ==> final(self).serial_counter() == old(self).serial_counter() + 1,
            r matches Ok(c) ==> certificate_view(c) == principal_certificate(
                principal@,
                subject_public_key,
                old(self).serial_counter(),
                now,
                signing_key_data(old(self).signing_key()),
            ),
            r matches Err(e) ==> e == CaError::PrincipalCertTypeMismatch || e
                == CaError::SerialExhausted || e == CaError::InvalidSubjectKey || e
                == CaError::SigningError || e == CaError::RandomSourceFailure,
    {
        if principal.cert_kind() != cert_type {
            return Err(CaError::PrincipalCertTypeMismatch);
        }
        if self.next_serial == u64::MAX {
            return Err(CaError::SerialExhausted);
        }
        let serial = self.next_serial;
        self.next_serial = serial + 1;
        match plan_certificate(&principal, cert_type, serial, now) {
            Ok(plan) => sign_plan(&plan, subject_public_key, &self.ca_signing_key),
            Err(e) => Err(e),
        }
    }
}

} // verus!
