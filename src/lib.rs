//! Issuing X.509 certificates: a self-signed certificate authority, and
//! certificates signed by an existing authority.
//!
//! The request that a certificate is built from is assembled and checked by
//! verified code; key generation, signing and encoding are done by `rcgen`.
mod error;
mod issue;
mod request;
mod x509;

pub use error::IssueError;
pub use issue::{issue_self_signed, issue_signed, IssuedCertificate};
pub use x509::{CertModel, IssuerModel, ParamsModel};
pub use request::{
    key_usages_for, validity_window, CertificateRequest, KeyUsage, MAX_TIMESTAMP, MIN_TIMESTAMP,
};
