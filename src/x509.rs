use vstd::prelude::*;

use crate::request::{KeyUsage, MAX_TIMESTAMP, MIN_TIMESTAMP};

verus! {

#[verifier::external_type_specification]
#[verifier::external_body]
pub struct ExCertificateParams(rcgen::CertificateParams);

#[verifier::external_type_specification]
#[verifier::external_body]
pub struct ExKeyPair(rcgen::KeyPair);

#[verifier::external_type_specification]
#[verifier::external_body]
pub struct ExCertificate(rcgen::Certificate);

#[verifier::external_type_specification]
#[verifier::external_body]
#[verifier::reject_recursive_types(S)]
pub struct ExIssuer<'a, S>(rcgen::Issuer<'a, S>);

#[verifier::external_type_specification]
#[verifier::external_body]
pub struct ExRcgenError(rcgen::Error);

#[verifier::external_type_specification]
#[verifier::external_body]
pub struct ExComponentRange(time::error::ComponentRange);

/// Every character is in the ASCII range.
pub open spec fn is_ascii_text(s: Seq<char>) -> bool {
    forall|i: int| 0 <= i < s.len() ==> (s[i] as u32) < 128
}

/// Every name can be encoded as a subject alternative name.
pub open spec fn sans_encodable(sans: Seq<String>) -> bool {
    forall|i: int| 0 <= i < sans.len() ==> is_ascii_text(#[trigger] sans[i]@)
}

/// Whether this PEM text holds a PKCS#8 private key of a kind rcgen accepts.
/// Reading such a key can still fail, where the system random number
/// generator does.
pub uninterp spec fn key_pem_parses(pem: Seq<char>) -> bool;

/// Whether rcgen reads an issuing certificate from this PEM text.
pub uninterp spec fn ca_cert_pem_parses(pem: Seq<char>) -> bool;

/// The public key that the certificate in this PEM text certifies, as DER
/// SubjectPublicKeyInfo, where x509-parser reads such a certificate.
pub uninterp spec fn cert_public_key(pem: Seq<char>) -> Option<Seq<u8>>;

/// The public half of the private key in this PEM text, as DER
/// SubjectPublicKeyInfo.
pub uninterp spec fn key_public_key(pem: Seq<char>) -> Seq<u8>;

/// An issuer's private key, read from PEM text.
pub struct IssuerKey {
    inner: rcgen::KeyPair,
    pem: Ghost<Seq<char>>,
}

impl IssuerKey {
    /// The text the key was read from.
    pub closed spec fn pem(&self) -> Seq<char> {
        self.pem@
    }
}

fn issuer_key_from(inner: rcgen::KeyPair) -> IssuerKey {
    IssuerKey { inner, pem: Ghost(arbitrary()) }
}

/// What a certificate will state about its subject.
pub struct ParamsModel {
    /// The subject's CommonName; `None` leaves rcgen's default name.
    pub common_name: Option<Seq<char>>,
    /// The subject alternative names, in order.
    pub sans: Seq<String>,
    /// `(not_before, not_after)` in Unix seconds; `None` leaves rcgen's
    /// default window, 1975 to 4096.
    pub window: Option<(int, int)>,
    /// A CA with no path length limit, or no CA at all.
    pub is_ca: bool,
    pub key_usages: Seq<KeyUsage>,
    /// Whether the authority key identifier extension is written.
    pub authority_key_identifier: bool,
}

/// Who signs a certificate, and whose name and key identifier it carries as
/// its issuer.
pub enum IssuerModel {
    /// The certified key itself; the issuer name is the subject name.
    SelfSigned,
    /// The authority whose certificate is this PEM text, with its key.
    Authority { cert_pem: Seq<char> },
}

/// What a signed certificate holds.
pub struct CertModel {
    pub subject: ParamsModel,
    pub issuer: IssuerModel,
    /// The certified public key, as DER SubjectPublicKeyInfo.
    pub subject_key: Seq<u8>,
}

/// A newly generated key pair.
pub struct NewKey {
    inner: rcgen::KeyPair,
    public: Ghost<Seq<u8>>,
}

impl NewKey {
    /// The public half, as DER SubjectPublicKeyInfo.
    pub closed spec fn public(&self) -> Seq<u8> {
        self.public@
    }
}

fn new_key_from(inner: rcgen::KeyPair) -> NewKey {
    NewKey { inner, public: Ghost(arbitrary()) }
}

/// Certificate parameters under construction.
pub struct Params {
    inner: rcgen::CertificateParams,
    model: Ghost<ParamsModel>,
}

impl Params {
    pub closed spec fn model(&self) -> ParamsModel {
        self.model@
    }

    /// The dates lie where rcgen's encoder can write them.
    pub open spec fn well_formed(&self) -> bool {
        match self.model().window {
            Some(w) => MIN_TIMESTAMP <= w.0 && w.1 <= MAX_TIMESTAMP,
            None => true,
        }
    }
}

fn params_from(inner: rcgen::CertificateParams) -> Params {
    Params { inner, model: Ghost(arbitrary()) }
}

/// A signed certificate.
pub struct Signed {
    inner: rcgen::Certificate,
    model: Ghost<CertModel>,
}

impl Signed {
    pub closed spec fn model(&self) -> CertModel {
        self.model@
    }
}

fn signed_from(inner: rcgen::Certificate) -> Signed {
    Signed { inner, model: Ghost(arbitrary()) }
}

/// An authority ready to sign: its certificate's name and key identifier
/// method, and its private key.
pub struct Authority {
    inner: rcgen::Issuer<'static, rcgen::KeyPair>,
    cert_pem: Ghost<Seq<char>>,
}

impl Authority {
    pub closed spec fn cert_pem(&self) -> Seq<char> {
        self.cert_pem@
    }
}

fn authority_from(inner: rcgen::Issuer<'static, rcgen::KeyPair>) -> Authority {
    Authority { inner, cert_pem: Ghost(arbitrary()) }
}

/// Relies on rcgen's `CertificateParams::new`: each name that does not parse as
/// an IP address becomes a DNS name, which fails exactly for a name that is not
/// all ASCII (an IP address always is). The rest are rcgen's defaults: its own
/// CommonName, the window 1975 to 4096, no CA, no key usages, no authority key
/// identifier.
#[verifier::external_body]
pub(crate) fn params_new(sans: Vec<String>) -> (r: Result<Params, rcgen::Error>)
    ensures
        r.is_ok() <==> sans_encodable(sans@),
        r matches Ok(p) ==> p.model() == (ParamsModel {
            common_name: None,
            sans: sans@,
            window: None,
            is_ca: false,
            key_usages: seq![],
            authority_key_identifier: false,
        }),
{
    rcgen::CertificateParams::new(sans).map(params_from)
}

/// Relies on time's `OffsetDateTime::from_unix_timestamp`, which accepts at
/// least every timestamp from the first day of year -9999 to the last of year
/// 9999, and on rcgen's public fields `not_before` and `not_after`.
#[verifier::external_body]
pub(crate) fn set_validity(p: &mut Params, not_before: i64, not_after: i64) -> (r: Result<
    (),
    time::error::ComponentRange,
>)
    requires
        MIN_TIMESTAMP <= not_before < not_after <= MAX_TIMESTAMP,
    ensures
        r.is_ok(),
        final(p).model() == (ParamsModel {
            window: Some((not_before as int, not_after as int)),
            ..old(p).model()
        }),
{
    p.inner.not_before = time::OffsetDateTime::from_unix_timestamp(not_before)?;
    p.inner.not_after = time::OffsetDateTime::from_unix_timestamp(not_after)?;
    Ok(())
}

/// Relies on rcgen's `DistinguishedName::push`: the subject is the single
/// CommonName `name`.
#[verifier::external_body]
pub(crate) fn set_common_name(p: &mut Params, name: &str)
    ensures
        final(p).model() == (ParamsModel { common_name: Some(name@), ..old(p).model() }),
{
    let mut dn = rcgen::DistinguishedName::new();
    dn.push(rcgen::DnType::CommonName, name);
    p.inner.distinguished_name = dn;
}

/// Relies on rcgen's `IsCa::Ca(BasicConstraints::Unconstrained)`: a CA with no
/// path length limit.
#[verifier::external_body]
pub(crate) fn set_unconstrained_ca(p: &mut Params)
    ensures
        final(p).model() == (ParamsModel { is_ca: true, ..old(p).model() }),
{
    p.inner.is_ca = rcgen::IsCa::Ca(rcgen::BasicConstraints::Unconstrained);
}

/// Relies on rcgen's `use_authority_key_identifier_extension`: the certificate
/// names its issuer's key by identifier.
#[verifier::external_body]
pub(crate) fn enable_authority_key_identifier(p: &mut Params)
    ensures
        final(p).model() == (ParamsModel { authority_key_identifier: true, ..old(p).model() }),
{
    p.inner.use_authority_key_identifier_extension = true;
}

/// Relies on rcgen's `KeyUsagePurpose`, one variant for each usage.
#[verifier::external_body]
pub(crate) fn push_key_usage(p: &mut Params, u: KeyUsage)
    ensures
        final(p).model() == (ParamsModel {
            key_usages: old(p).model().key_usages.push(u),
            ..old(p).model()
        }),
{
    p.inner.key_usages.push(match u {
        KeyUsage::DigitalSignature => rcgen::KeyUsagePurpose::DigitalSignature,
        KeyUsage::KeyCertSign => rcgen::KeyUsagePurpose::KeyCertSign,
        KeyUsage::CrlSign => rcgen::KeyUsagePurpose::CrlSign,
    });
}

/// Relies on rcgen's `KeyPair::generate`: a fresh random ECDSA P-256 key pair.
#[verifier::external_body]
pub(crate) fn generate_key_pair() -> (r: Result<NewKey, rcgen::Error>) {
    rcgen::KeyPair::generate().map(new_key_from)
}

/// Relies on rcgen's `KeyPair::from_pem`: parses a PKCS#8 private key. It
/// fails on text that holds no key of a kind rcgen accepts, and may also fail
/// where ring cannot draw from the system random number generator.
#[verifier::external_body]
pub(crate) fn key_pair_from_pem(pem: &str) -> (r: Result<IssuerKey, rcgen::Error>)
    ensures
        r.is_ok() ==> key_pem_parses(pem@),
        r matches Ok(k) ==> k.pem() == pem@,
{
    rcgen::KeyPair::from_pem(pem).map(issuer_key_from)
}

/// Relies on rcgen's `PublicKeyData::subject_public_key_info`: the DER
/// SubjectPublicKeyInfo of the key's public half.
#[verifier::external_body]
pub(crate) fn key_public_key_der(k: &IssuerKey) -> (r: Vec<u8>)
    ensures
        r@ == key_public_key(k.pem()),
{
    rcgen::PublicKeyData::subject_public_key_info(&k.inner)
}

/// Relies on x509-parser's `parse_x509_pem` and `Pem::parse_x509`: the raw
/// SubjectPublicKeyInfo of the certificate, where one is read.
#[verifier::external_body]
pub(crate) fn cert_public_key_der(pem: &str) -> (r: Option<Vec<u8>>)
    ensures
        r.is_some() == cert_public_key(pem@).is_some(),
        r matches Some(v) ==> cert_public_key(pem@) == Some(v@),
{
    let (_, p) = x509_parser::pem::parse_x509_pem(pem.as_bytes()).ok()?;
    let c = p.parse_x509().ok()?;
    Some(c.public_key().raw.to_vec())
}

/// Relies on rcgen's `Issuer::from_ca_cert_pem`: the issuer's name and key
/// identifier method come from the certificate, its signing key is `key`.
/// Whether it succeeds depends on the certificate text alone.
#[verifier::external_body]
pub(crate) fn issuer_from_ca_cert_pem(pem: &str, key: IssuerKey) -> (r: Result<
    Authority,
    rcgen::Error,
>)
    ensures
        r.is_ok() == ca_cert_pem_parses(pem@),
        r matches Ok(a) ==> a.cert_pem() == pem@,
{
    rcgen::Issuer::from_ca_cert_pem(pem, key.inner).map(authority_from)
}

/// Relies on rcgen's `CertificateParams::self_signed`: the certificate states
/// the parameters, its issuer is its subject, and `key` is both certified and
/// signs. Its encoder panics on a year outside 0..=9999.
#[verifier::external_body]
pub(crate) fn self_signed(p: &Params, key: &NewKey) -> (r: Result<Signed, rcgen::Error>)
    requires
        p.well_formed(),
    ensures
        r matches Ok(c) ==> c.model() == (CertModel {
            subject: p.model(),
            issuer: IssuerModel::SelfSigned,
            subject_key: key.public(),
        }),
{
    p.inner.self_signed(&key.inner).map(signed_from)
}

/// Relies on rcgen's `CertificateParams::signed_by`: the certificate states
/// the parameters and certifies `key`; its issuer name and authority key
/// identifier are the authority's, and the authority's key signs. Its encoder
/// panics on a year outside 0..=9999.
#[verifier::external_body]
pub(crate) fn signed_by(p: &Params, key: &NewKey, issuer: &Authority) -> (r: Result<
    Signed,
    rcgen::Error,
>)
    requires
        p.well_formed(),
    ensures
        r matches Ok(c) ==> c.model() == (CertModel {
            subject: p.model(),
            issuer: IssuerModel::Authority { cert_pem: issuer.cert_pem() },
            subject_key: key.public(),
        }),
{
    p.inner.signed_by(&key.inner, &issuer.inner).map(signed_from)
}

/// Relies on rcgen's `Certificate::pem`: the certificate in PEM, from which
/// x509-parser reads the public key rcgen wrote into it.
#[verifier::external_body]
pub(crate) fn certificate_pem(c: &Signed) -> (r: String)
    ensures
        cert_public_key(r@) == Some(c.model().subject_key),
{
    c.inner.pem()
}

/// Relies on rcgen's `KeyPair::serialize_pem`: the private key in PKCS#8 PEM,
/// of a kind rcgen accepts and with the key's public half.
#[verifier::external_body]
pub(crate) fn key_pair_pem(k: &NewKey) -> (r: String)
    ensures
        key_pem_parses(r@),
        key_public_key(r@) == k.public(),
{
    k.inner.serialize_pem()
}

} // verus!
