//! Properties of the provisioning-secret lifecycle, stated over the model
//! that the authority's operations are specified against.

use vstd::prelude::*;
use crate::ca::{challenge_accepted, secrets_after_challenge};
use crate::principal::PrincipalView;
use crate::secret::{fresh_secret, SecretView, PROVISIONING_VALIDITY_SECS};

verus! {

/// A secret issued for a principal at `issued` is accepted for that principal
/// at any instant before it expires, whatever else is stored.
pub proof fn issued_secret_is_accepted(
    secrets: Map<PrincipalView, SecretView>,
    principal: PrincipalView,
    secret: Seq<u8>,
    issued: u64,
    now: u64,
)
    requires
        issued + PROVISIONING_VALIDITY_SECS <= u64::MAX,
        issued <= now < issued + PROVISIONING_VALIDITY_SECS,
    ensures
        challenge_accepted(
            secrets.insert(principal, fresh_secret(secret, issued)),
            principal,
            secret,
            now,
        ),
{
}

/// A successful challenge consumes the secret: the same offer for the same
/// principal is refused afterwards, at any instant.
pub proof fn accepted_secret_is_single_use(
    secrets: Map<PrincipalView, SecretView>,
    principal: PrincipalView,
    offered: Seq<u8>,
    now: u64,
    later: u64,
)
    requires
        challenge_accepted(secrets, principal, offered, now),
    ensures
        !challenge_accepted(
            secrets_after_challenge(secrets, principal, offered, now),
            principal,
            offered,
            later,
        ),
{
}

/// A principal with no stored secret fails every challenge.
pub proof fn absent_principal_is_refused(
    secrets: Map<PrincipalView, SecretView>,
    principal: PrincipalView,
    offered: Seq<u8>,
    now: u64,
)
    requires
        !secrets.contains_key(principal),
    ensures
        !challenge_accepted(secrets, principal, offered, now),
        secrets_after_challenge(secrets, principal, offered, now) == secrets,
{
}

/// A secret issued at `issued` is refused once three minutes have passed,
/// even when offered correctly.
pub proof fn expired_secret_is_refused(
    secrets: Map<PrincipalView, SecretView>,
    principal: PrincipalView,
    secret: Seq<u8>,
    issued: u64,
    now: u64,
)
    requires
        issued + PROVISIONING_VALIDITY_SECS <= u64::MAX,
        now >= issued + PROVISIONING_VALIDITY_SECS,
    ensures
        !challenge_accepted(
            secrets.insert(principal, fresh_secret(secret, issued)),
            principal,
            secret,
            now,
        ),
{
}

/// Issuing twice for a principal replaces the first secret: a challenge with
/// the first is refused and leaves the second in place, which is then
/// accepted.
pub proof fn reissue_replaces_secret(
    secrets: Map<PrincipalView, SecretView>,
    principal: PrincipalView,
    first: Seq<u8>,
    first_issued: u64,
    second: Seq<u8>,
    second_issued: u64,
    now: u64,
)
    requires
        first != second,
        first_issued + PROVISIONING_VALIDITY_SECS <= u64::MAX,
        second_issued + PROVISIONING_VALIDITY_SECS <= u64::MAX,
        second_issued <= now < second_issued + PROVISIONING_VALIDITY_SECS,
    ensures
        ({
            let reissued = secrets.insert(principal, fresh_secret(first, first_issued)).insert(
                principal,
                fresh_secret(second, second_issued),
            );
            &&& !challenge_accepted(reissued, principal, first, now)
            &&& challenge_accepted(
                secrets_after_challenge(reissued, principal, first, now),
                principal,
                second,
                now,
            )
        }),
{
}

} // verus!
