use vstd::prelude::*;

use crate::error::IssueError;
use crate::request::{request_ok, usage_policy, CertificateRequest, KeyUsage};
use crate::x509::{
    ca_cert_pem_parses, cert_public_key, cert_public_key_der, certificate_pem, key_public_key,
    key_public_key_der, enable_authority_key_identifier, generate_key_pair,
    issuer_from_ca_cert_pem, key_pair_from_pem, key_pair_pem, key_pem_parses, params_new,
    push_key_usage, sans_encodable, self_signed, set_common_name, set_unconstrained_ca,
    set_validity, signed_by, CertModel, IssuerModel, Params, ParamsModel,
};

verus! {

/// A certificate can be issued for these arguments: the request is
/// acceptable and every subject alternative name can be encoded.
pub open spec fn issuable(name: Seq<char>, sans: Seq<String>, now: int, ttl: int) -> bool {
    request_ok(name, sans, now, ttl) && sans_encodable(sans)
}

/// What a certificate built from `req` states about its subject: all of the
/// request, and an authority key identifier.
pub open spec fn params_model_of(req: CertificateRequest) -> ParamsModel {
    ParamsModel {
        common_name: Some(req.subject_name@),
        sans: req.subject_alt_names@,
        window: Some((req.not_before as int, req.not_after as int)),
        is_ca: req.is_ca,
        key_usages: req.key_usages@,
        authority_key_identifier: true,
    }
}

/// The issuer's material is well formed: the text holds a private key of a
/// kind rcgen accepts, the certificate can be read, and it certifies that
/// key.
pub open spec fn issuer_readable(cert_pem: Seq<char>, key_pem: Seq<char>) -> bool {
    &&& key_pem_parses(key_pem)
    &&& cert_public_key(cert_pem) == Some(key_public_key(key_pem))
    &&& ca_cert_pem_parses(cert_pem)
}

/// Whether two byte strings are equal.
fn same_bytes(a: &Vec<u8>, b: &Vec<u8>) -> (r: bool)
    ensures
        r == (a@ == b@),
{
    if a.len() != b.len() {
        return false;
    }
    let n = a.len();
    for i in 0..n
        invariant
            n == a@.len(),
            n == b@.len(),
            forall|j: int| 0 <= j < i ==> a@[j] == b@[j],
    {
        if a[i] != b[i] {
            return false;
        }
    }
    assert(a@ =~= b@);
    true
}

/// A newly issued certificate and the private key it certifies.
pub struct IssuedCertificate {
    /// What the certificate was built from.
    pub request: CertificateRequest,
    /// What the certificate in `cert_pem` holds.
    pub certificate: Ghost<CertModel>,
    /// The certificate, PEM-encoded.
    pub cert_pem: String,
    /// The new private key, PEM-encoded PKCS#8.
    pub key_pem: String,
}

/// Certificate parameters holding what `req` states, with the authority key
/// identifier extension enabled.
fn to_params(req: &CertificateRequest) -> (r: Result<Params, IssueError>)
    requires
        req.well_formed(),
    ensures
        r.is_ok() <==> sans_encodable(req.subject_alt_names@),
        r matches Err(e) ==> e == IssueError::InvalidInput,
        r matches Ok(p) ==> p.model() == params_model_of(*req) && p.well_formed(),
{
    let mut cp = match params_new(req.subject_alt_names.clone()) {
        Ok(cp) => cp,
        Err(_) => return Err(IssueError::InvalidInput),
    };
    if set_validity(&mut cp, req.not_before, req.not_after).is_err() {
        return Err(IssueError::InvalidInput);
    }
    enable_authority_key_identifier(&mut cp);
    set_common_name(&mut cp, req.subject_name.as_str());
    if req.is_ca {
        set_unconstrained_ca(&mut cp);
    }
    let n = req.key_usages.len();
    assert(req.key_usages@.subrange(0, 0) =~= seq![]);
    for i in 0..n
        invariant
            n == req.key_usages@.len(),
            cp.model() == (ParamsModel {
                key_usages: req.key_usages@.subrange(0, i as int),
                ..params_model_of(*req)
            }),
    {
        push_key_usage(&mut cp, req.key_usages[i]);
        assert(req.key_usages@.subrange(0, i as int).push(req.key_usages@[i as int])
            =~= req.key_usages@.subrange(0, i + 1 as int));
    }
    assert(req.key_usages@.subrange(0, n as int) =~= req.key_usages@);
    Ok(cp)
}

/// Issues a self-signed certificate authority named `name` for the subject
/// alternative names `sans`, valid for `ttl` seconds from `now`, with a new
/// key pair that also signs it.
///
/// Invalid arguments are reported before any key is generated.
pub fn issue_self_signed(name: &str, sans: &Vec<String>, now: i64, ttl: i64) -> (r: Result<
    IssuedCertificate,
    IssueError,
>)
    ensures
        r == Err::<IssuedCertificate, IssueError>(IssueError::InvalidInput) <==> !issuable(
            name@,
            sans@,
            now as int,
            ttl as int,
        ),
        r matches Err(e) ==> e == IssueError::InvalidInput || e == IssueError::CryptoFailure,
        r matches Ok(c) ==> c.request.describes(name@, sans@, now as int, ttl as int, true)
            && c.request.well_formed() && c.certificate@ == (CertModel {
            subject: params_model_of(c.request),
            issuer: IssuerModel::SelfSigned,
            subject_key: key_public_key(c.key_pem@),
        }) && cert_public_key(c.cert_pem@) == Some(key_public_key(c.key_pem@))
            && key_pem_parses(c.key_pem@),
{
    let request = match CertificateRequest::self_signed_ca(name, sans, now, ttl) {
        Ok(req) => req,
        Err(e) => return Err(e),
    };
    let cp = match to_params(&request) {
        Ok(cp) => cp,
        Err(e) => return Err(e),
    };
    let key = match generate_key_pair() {
        Ok(k) => k,
        Err(_) => return Err(IssueError::CryptoFailure),
    };
    let cert = match self_signed(&cp, &key) {
        Ok(c) => c,
        Err(_) => return Err(IssueError::CryptoFailure),
    };
    Ok(
        IssuedCertificate {
            request,
            certificate: Ghost(cert.model()),
            cert_pem: certificate_pem(&cert),
            key_pem: key_pair_pem(&key),
        },
    )
}

/// Issues a certificate named `name` for the subject alternative names
/// `sans`, valid for `ttl` seconds from `now`, with a new key pair, signed by
/// the authority whose certificate and private key are given in PEM. With
/// `is_ca` the new certificate may itself sign certificates.
///
/// Invalid arguments are reported first, then an unreadable issuer or a key
/// that is not the one its certificate certifies, all before any key is
/// generated.
pub fn issue_signed(
    issuer_cert_pem: &str,
    issuer_key_pem: &str,
    name: &str,
    sans: &Vec<String>,
    now: i64,
    ttl: i64,
    is_ca: bool,
) -> (r: Result<IssuedCertificate, IssueError>)
    ensures
        r == Err::<IssuedCertificate, IssueError>(IssueError::InvalidInput) <==> !issuable(
            name@,
            sans@,
            now as int,
            ttl as int,
        ),
        issuable(name@, sans@, now as int, ttl as int) && !issuer_readable(
            issuer_cert_pem@,
            issuer_key_pem@,
        ) ==> r == Err::<IssuedCertificate, IssueError>(IssueError::InvalidIssuer),
        r == Err::<IssuedCertificate, IssueError>(IssueError::InvalidIssuer) ==> issuable(
            name@,
            sans@,
            now as int,
            ttl as int,
        ),
        r matches Ok(c) ==> c.request.describes(name@, sans@, now as int, ttl as int, is_ca)
            && c.request.well_formed() && c.certificate@ == (CertModel {
            subject: params_model_of(c.request),
            issuer: IssuerModel::Authority { cert_pem: issuer_cert_pem@ },
            subject_key: key_public_key(c.key_pem@),
        }) && cert_public_key(c.cert_pem@) == Some(key_public_key(c.key_pem@))
            && key_pem_parses(c.key_pem@),
{
    let request = match CertificateRequest::new(name, sans, now, ttl, is_ca) {
        Ok(req) => req,
        Err(e) => return Err(e),
    };
    let cp = match to_params(&request) {
        Ok(cp) => cp,
        Err(e) => return Err(e),
    };
    let issuer_key = match key_pair_from_pem(issuer_key_pem) {
        Ok(k) => k,
        Err(_) => return Err(IssueError::InvalidIssuer),
    };
    let matches = match cert_public_key_der(issuer_cert_pem) {
        Some(spki) => same_bytes(&spki, &key_public_key_der(&issuer_key)),
        None => false,
    };
    if !matches {
        return Err(IssueError::InvalidIssuer);
    }
    let issuer = match issuer_from_ca_cert_pem(issuer_cert_pem, issuer_key) {
        Ok(i) => i,
        Err(_) => return Err(IssueError::InvalidIssuer),
    };
    let key = match generate_key_pair() {
        Ok(k) => k,
        Err(_) => return Err(IssueError::CryptoFailure),
    };
    let cert = match signed_by(&cp, &key, &issuer) {
        Ok(c) => c,
        Err(_) => return Err(IssueError::CryptoFailure),
    };
    Ok(
        IssuedCertificate {
            request,
            certificate: Ghost(cert.model()),
            cert_pem: certificate_pem(&cert),
            key_pem: key_pair_pem(&key),
        },
    )
}

/// A certificate issued without the CA flag can sign nothing: it is no CA
/// and carries neither the certificate-signing nor the CRL-signing usage, but
/// it does carry the digital-signature usage.
pub proof fn lemma_leaf_cannot_sign(c: IssuedCertificate)
    requires
        c.request.well_formed(),
        !c.request.is_ca,
        c.certificate@.subject == params_model_of(c.request),
    ensures
        !c.request.may_sign_certificates(),
        !c.certificate@.subject.is_ca,
        !c.certificate@.subject.key_usages.contains(KeyUsage::KeyCertSign),
        !c.certificate@.subject.key_usages.contains(KeyUsage::CrlSign),
        c.certificate@.subject.key_usages.contains(KeyUsage::DigitalSignature),
{
    assert(c.certificate@.subject.key_usages[0] == KeyUsage::DigitalSignature);
}

/// A certificate issued with the CA flag is a CA without path length limit
/// and carries the certificate-signing, CRL-signing and digital-signature
/// usages.
pub proof fn lemma_ca_can_sign(c: IssuedCertificate)
    requires
        c.request.well_formed(),
        c.request.is_ca,
        c.certificate@.subject == params_model_of(c.request),
    ensures
        c.request.may_sign_certificates(),
        c.certificate@.subject.is_ca,
        c.certificate@.subject.key_usages.contains(KeyUsage::KeyCertSign),
        c.certificate@.subject.key_usages.contains(KeyUsage::CrlSign),
        c.certificate@.subject.key_usages.contains(KeyUsage::DigitalSignature),
{
    let u = c.certificate@.subject.key_usages;
    assert(u[0] == KeyUsage::DigitalSignature);
    assert(u[1] == KeyUsage::KeyCertSign);
    assert(u[2] == KeyUsage::CrlSign);
}

} // verus!
