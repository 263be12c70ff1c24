//! Provisioning secrets: 32 random bytes with an expiry instant.

use vstd::prelude::*;
use rand_core::RngCore;
use subtle::ConstantTimeEq;

verus! {

/// Lifetime of a provisioning secret, in seconds (three minutes).
pub const PROVISIONING_VALIDITY_SECS: u64 = 60 * 3;

/// The abstract content of a provisioning secret.
pub struct SecretView {
    pub secret: Seq<u8>,
    pub valid_until: u64,
}

/// The secret that a creation at `now` with the random bytes `secret` yields.
pub open spec fn fresh_secret(secret: Seq<u8>, now: u64) -> SecretView {
    SecretView { secret, valid_until: (now + PROVISIONING_VALIDITY_SECS) as u64 }
}

/// Relies on rand_core's `OsRng::try_fill_bytes`: fills the buffer from the
/// operating system's random source, or reports that the source failed.
/// Nothing is known of the bytes.
#[verifier::external_body]
pub(crate) fn draw_random_bytes() -> (r: Option<[u8; 32]>) {
    let mut buf = [0u8; 32];
    match rand_core::OsRng.try_fill_bytes(&mut buf) {
        Ok(()) => Some(buf),
        Err(_) => None,
    }
}

/// Relies on subtle's `ConstantTimeEq::ct_eq` on byte slices: the result is
/// true exactly when both slices hold the same bytes, computed without
/// branching on their contents.
#[verifier::external_body]
fn constant_time_eq(a: &[u8; 32], b: &[u8; 32]) -> (r: bool)
    ensures
        r == (a@ == b@),
{
    a[..].ct_eq(&b[..]).into()
}

/// A 32-byte provisioning secret and the instant (Unix seconds) until which it
/// may be used.
pub struct ProvisioningSecret {
    secret: [u8; 32],
    valid_until: u64,
}

impl View for ProvisioningSecret {
    type V = SecretView;

    closed spec fn view(&self) -> SecretView {
        SecretView { secret: self.secret@, valid_until: self.valid_until }
    }
}

impl ProvisioningSecret {
    /// A secret holding `secret`, created at `now`.
    pub fn from_random_bytes(secret: [u8; 32], now: u64) -> (r: ProvisioningSecret)
        requires
            now + PROVISIONING_VALIDITY_SECS <= u64::MAX,
        ensures
            r@ == fresh_secret(secret@, now),
    {
        ProvisioningSecret { secret, valid_until: now + PROVISIONING_VALIDITY_SECS }
    }

    /// Draws a fresh secret from the operating system's random source, valid
    /// for three minutes after `now`; `None` when the random source fails.
    pub fn new(now: u64) -> (r: Option<ProvisioningSecret>)
        requires
            now + PROVISIONING_VALIDITY_SECS <= u64::MAX,
        ensures
            r matches Some(s) ==> s@.secret.len() == 32 && s@ == fresh_secret(s@.secret, now),
    {
        match draw_random_bytes() {
            Some(bytes) => Some(ProvisioningSecret::from_random_bytes(bytes, now)),
            None => None,
        }
    }

    /// The secret bytes.
    pub fn secret(&self) -> (r: &[u8; 32])
        ensures
            r@ == self@.secret,
    {
        &self.secret
    }

    /// The instant (Unix seconds) from which the secret is no longer valid.
    pub fn valid_until(&self) -> (r: u64)
        ensures
            r == self@.valid_until,
    {
        self.valid_until
    }

    /// Whether the secret is still valid at `now`.
    pub fn is_valid(&self, now: u64) -> (r: bool)
        ensures
            r == (now < self@.valid_until),
    {
        now < self.valid_until
    }

    /// Compares `offered` with the secret in constant time.
    pub fn matches(&self, offered: &[u8; 32]) -> (r: bool)
        ensures
            r == (self@.secret == offered@),
    {
        constant_time_eq(&self.secret, offered)
    }

    /// Overwrites the secret bytes with zeros.
    pub fn clear(&mut self)
        ensures
            final(self)@.secret == Seq::new(32, |i: int| 0u8),
            final(self)@.valid_until == old(self)@.valid_until,
    {
        let mut i: usize = 0;
        while i < 32
            invariant
                0 <= i <= 32,
                self.valid_until == old(self).valid_until,
                forall|j: int| 0 <= j < i ==> self.secret[j] == 0u8,
            decreases 32 - i,
        {
            self.secret[i] = 0u8;
            i = i + 1;
        }
        assert(self.secret@ =~= Seq::new(32, |i: int| 0u8));
    }
}

} // verus!
