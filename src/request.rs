use vstd::prelude::*;

use crate::error::IssueError;

verus! {

/// The earliest instant a certificate's validity can name:
/// 0000-01-01T00:00:00Z, in seconds since the Unix epoch.
pub const MIN_TIMESTAMP: i64 = -62167219200;

/// The latest instant a certificate's validity can name:
/// 9999-12-31T23:59:59Z, in seconds since the Unix epoch.
pub const MAX_TIMESTAMP: i64 = 253402300799;

/// A purpose the certified key may be used for.
#[derive(Debug, Clone, Copy, PartialEq, Eq, Structural)]
pub enum KeyUsage {
    DigitalSignature,
    KeyCertSign,
    CrlSign,
}

/// The key usages a certificate carries: a certificate authority may also
/// sign certificates and revocation lists.
pub open spec fn usage_policy(is_ca: bool) -> Seq<KeyUsage> {
    if is_ca {
        seq![KeyUsage::DigitalSignature, KeyUsage::KeyCertSign, KeyUsage::CrlSign]
    } else {
        seq![KeyUsage::DigitalSignature]
    }
}

/// A validity window that starts at `now`, lasts `ttl` seconds and lies
/// within the range a certificate can encode.
pub open spec fn window_ok(now: int, ttl: int) -> bool {
    &&& ttl > 0
    &&& MIN_TIMESTAMP <= now
    &&& now + ttl <= MAX_TIMESTAMP
}

/// The arguments of a request are acceptable: a name, at least one subject
/// alternative name, and a non-empty validity window.
pub open spec fn request_ok(name: Seq<char>, sans: Seq<String>, now: int, ttl: int) -> bool {
    &&& name.len() > 0
    &&& sans.len() > 0
    &&& window_ok(now, ttl)
}

/// Everything a certificate is built from, apart from its keys.
#[derive(Debug, Clone)]
pub struct CertificateRequest {
    /// The subject's CommonName.
    pub subject_name: String,
    /// DNS names or IP addresses, in the order given.
    pub subject_alt_names: Vec<String>,
    /// Start of validity, in seconds since the Unix epoch.
    pub not_before: i64,
    /// End of validity, in seconds since the Unix epoch.
    pub not_after: i64,
    /// Whether the certificate may sign further certificates, with no limit
    /// on the path length below it.
    pub is_ca: bool,
    pub key_usages: Vec<KeyUsage>,
}

impl CertificateRequest {
    /// The request is consistent: it names a subject, has a non-empty validity
    /// window within range, and carries the key usages its CA flag calls for.
    pub open spec fn well_formed(&self) -> bool {
        &&& self.subject_name@.len() > 0
        &&& self.subject_alt_names@.len() > 0
        &&& MIN_TIMESTAMP <= self.not_before
        &&& self.not_before < self.not_after
        &&& self.not_after <= MAX_TIMESTAMP
        &&& self.key_usages@ == usage_policy(self.is_ca)
    }

    /// The request holds exactly the given subject, names, window and CA flag.
    pub open spec fn describes(
        &self,
        name: Seq<char>,
        sans: Seq<String>,
        now: int,
        ttl: int,
        is_ca: bool,
    ) -> bool {
        &&& self.subject_name@ == name
        &&& self.subject_alt_names@ == sans
        &&& self.not_before == now
        &&& self.not_after == now + ttl
        &&& self.is_ca == is_ca
        &&& self.key_usages@ == usage_policy(is_ca)
    }

    /// Whether the certificate may be used to sign other certificates.
    pub open spec fn may_sign_certificates(&self) -> bool {
        self.is_ca && self.key_usages@.contains(KeyUsage::KeyCertSign)
    }

    /// A request for a certificate named `name`, valid for `ttl` seconds from
    /// `now`.
    pub fn new(name: &str, sans: &Vec<String>, now: i64, ttl: i64, is_ca: bool) -> (r: Result<
        CertificateRequest,
        IssueError,
    >)
        ensures
            request_ok(name@, sans@, now as int, ttl as int) <==> r.is_ok(),
            r matches Err(e) ==> e == IssueError::InvalidInput,
            r matches Ok(req) ==> req.describes(name@, sans@, now as int, ttl as int, is_ca)
                && req.well_formed(),
    {
        if name.unicode_len() == 0 || sans.len() == 0 {
            return Err(IssueError::InvalidInput);
        }
        let (not_before, not_after) = match validity_window(now, ttl) {
            Ok(w) => w,
            Err(e) => return Err(e),
        };
        Ok(CertificateRequest {
            subject_name: name.to_string(),
            subject_alt_names: sans.clone(),
            not_before,
            not_after,
            is_ca,
            key_usages: key_usages_for(is_ca),
        })
    }

    /// A request for a self-signed certificate authority.
    pub fn self_signed_ca(name: &str, sans: &Vec<String>, now: i64, ttl: i64) -> (r: Result<
        CertificateRequest,
        IssueError,
    >)
        ensures
            request_ok(name@, sans@, now as int, ttl as int) <==> r.is_ok(),
            r matches Err(e) ==> e == IssueError::InvalidInput,
            r matches Ok(req) ==> req.describes(name@, sans@, now as int, ttl as int, true)
                && req.well_formed(),
    {
        CertificateRequest::new(name, sans, now, ttl, true)
    }
}

/// The key usages for a certificate, as `usage_policy` gives them.
pub fn key_usages_for(is_ca: bool) -> (r: Vec<KeyUsage>)
    ensures
        r@ == usage_policy(is_ca),
{
    let mut v: Vec<KeyUsage> = Vec::new();
    v.push(KeyUsage::DigitalSignature);
    if is_ca {
        v.push(KeyUsage::KeyCertSign);
        v.push(KeyUsage::CrlSign);
    }
    assert(v@ =~= usage_policy(is_ca));
    v
}

/// The validity window `(not_before, not_after)` of a certificate issued at
/// `now` for `ttl` seconds.
pub fn validity_window(now: i64, ttl: i64) -> (r: Result<(i64, i64), IssueError>)
    ensures
        window_ok(now as int, ttl as int) <==> r.is_ok(),
        r matches Err(e) ==> e == IssueError::InvalidInput,
        r matches Ok(w) ==> w.0 == now && w.1 == now + ttl,
{
    if ttl <= 0 || now < MIN_TIMESTAMP || now > MAX_TIMESTAMP {
        return Err(IssueError::InvalidInput);
    }
    if ttl > MAX_TIMESTAMP - now {
        return Err(IssueError::InvalidInput);
    }
    Ok((now, now + ttl))
}

} // verus!
