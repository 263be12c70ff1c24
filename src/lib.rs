//! An SSH certificate authority core: short-lived provisioning secrets that
//! gate issuance, single-use challenge validation, and certificate signing.

pub mod ca;
pub mod certificate;
pub mod laws;
pub mod principal;
pub mod secret;
pub mod store;

pub use secret::{ProvisioningSecret, PROVISIONING_VALIDITY_SECS};
pub use principal::{CertKind, SshPrincipal};
pub use store::SecretStore;
pub use certificate::{CaError, CertificatePlan, CERT_VALIDITY_SECS};
pub use ca::SshCertificateAuthority;
