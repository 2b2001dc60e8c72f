use vstd::prelude::*;
use openssl::error::ErrorStack;
use openssl::ssl::{SslConnector, SslConnectorBuilder, SslFiletype, SslMethod, SslVersion};

verus! {

#[verifier::external_type_specification]
#[verifier::external_body]
pub struct ExSslConnector(SslConnector);

#[verifier::external_type_specification]
#[verifier::external_body]
pub struct ExSslConnectorBuilder(SslConnectorBuilder);

#[verifier::external_type_specification]
#[verifier::external_body]
pub struct ExErrorStack(ErrorStack);

/// The only cipher suites a connection may use, in order of preference:
/// ephemeral Diffie-Hellman key exchange with AES-GCM, and an explicit
/// exclusion of the null, export, DES, 3DES, RC4 and MD5 families.
pub const CIPHER_LIST: &'static str = "DHE-RSA-AES128-GCM-SHA256:DHE-RSA-AES256-GCM-SHA384:!aNULL:!eNULL:!EXPORT:!DES:!3DES:!RC4:!MD5";

/// Why a TLS client context could not be built.
#[derive(Debug, Clone, Copy, PartialEq, Eq, Structural)]
pub enum TlsError {
    /// The CA certificate file is missing, unreadable or malformed.
    CaLoadFailed,
    /// The client certificate file is missing, unreadable or malformed.
    ClientCertLoadFailed,
    /// The client private key file is missing, unreadable or malformed.
    ClientKeyLoadFailed,
    /// The protocol pin or the cipher allow-list could not be installed.
    CipherPolicyRejected,
}

/// What has been installed in a TLS client context on top of OpenSSL's
/// connector defaults (which include the system's default CA paths).
pub struct TlsPosture {
    /// TLS 1.2 is the lowest version offered.
    pub min_tls12: bool,
    /// TLS 1.2 is the highest version offered.
    pub max_tls12: bool,
    /// The cipher list installed, if any replaced the default.
    pub ciphers: Option<Seq<char>>,
    /// The CA certificate file trusted to verify servers.
    pub ca_file: Option<Seq<char>>,
    /// The client certificate file presented as the client's identity.
    pub cert_file: Option<Seq<char>>,
    /// The private key file of the client certificate.
    pub key_file: Option<Seq<char>>,
}

/// A context with OpenSSL's connector defaults and nothing installed yet.
pub open spec fn default_posture() -> TlsPosture {
    TlsPosture {
        min_tls12: false,
        max_tls12: false,
        ciphers: None,
        ca_file: None,
        cert_file: None,
        key_file: None,
    }
}

/// The posture of a context pinned to TLS 1.2 and to `ciphers`, trusting
/// `ca`, and presenting `cert` with `key` where they are given.
pub open spec fn pinned_posture(
    ciphers: Seq<char>,
    ca: Seq<char>,
    cert: Option<Seq<char>>,
    key: Option<Seq<char>>,
) -> TlsPosture {
    TlsPosture {
        min_tls12: true,
        max_tls12: true,
        ciphers: Some(ciphers),
        ca_file: Some(ca),
        cert_file: cert,
        key_file: key,
    }
}

/// The view of an optional path.
pub open spec fn opt_str(s: Option<&str>) -> Option<Seq<char>> {
    match s {
        Some(x) => Some(x@),
        None => None,
    }
}

/// A TLS client context under construction, with what has been installed
/// in it so far.
pub struct TlsBuilder {
    inner: SslConnectorBuilder,
    posture: Ghost<TlsPosture>,
}

impl View for TlsBuilder {
    type V = TlsPosture;

    closed spec fn view(&self) -> TlsPosture {
        self.posture@
    }
}

/// A finished TLS client context, with what was installed in it.
pub struct TlsContext {
    inner: SslConnector,
    posture: Ghost<TlsPosture>,
}

impl View for TlsContext {
    type V = TlsPosture;

    closed spec fn view(&self) -> TlsPosture {
        self.posture@
    }
}

impl TlsContext {
    /// The OpenSSL connector, for the transport that uses it.
    pub fn into_connector(self) -> (r: SslConnector) {
        self.inner
    }
}

/// Whether a string holds a NUL character, which no string handed to the
/// TLS library may hold.
pub open spec fn holds_nul(s: Seq<char>) -> bool {
    exists|i: int| 0 <= i < s.len() && s[i] == '\0'
}

/// Whether a string holds a NUL character.
pub fn has_nul(s: &str) -> (r: bool)
    ensures
        r == holds_nul(s@),
{
    let n = s.unicode_len();
    let mut i: usize = 0;
    while i < n
        invariant
            n == s@.len(),
            i <= n,
            forall|j: int| 0 <= j < i ==> s@[j] != '\0',
        decreases n - i,
    {
        if s.get_char(i) == '\0' {
            return true;
        }
        i = i + 1;
    }
    false
}

/// Relies on `SslConnector::builder`: a client context with OpenSSL's
/// client defaults and nothing of this library's installed yet.
#[verifier::external_body]
fn connector_builder() -> (r: Result<TlsBuilder, ErrorStack>)
    ensures
        r matches Ok(b) ==> b@ == default_posture(),
{
    SslConnector::builder(SslMethod::tls_client()).map(
        |inner| TlsBuilder { inner, posture: Ghost(default_posture()) },
    )
}

/// Relies on `SslContextBuilder::set_min_proto_version`: on success no
/// version below TLS 1.2 is offered.
#[verifier::external_body]
fn pin_min_version(b: &mut TlsBuilder) -> (r: Result<(), ErrorStack>)
    ensures
        r is Ok ==> final(b)@ == (TlsPosture { min_tls12: true, ..old(b)@ }),
{
    b.inner.set_min_proto_version(Some(SslVersion::TLS1_2))
}

/// Relies on `SslContextBuilder::set_max_proto_version`: on success no
/// version above TLS 1.2 is offered.
#[verifier::external_body]
fn pin_max_version(b: &mut TlsBuilder) -> (r: Result<(), ErrorStack>)
    ensures
        r is Ok ==> final(b)@ == (TlsPosture { max_tls12: true, ..old(b)@ }),
{
    b.inner.set_max_proto_version(Some(SslVersion::TLS1_2))
}

/// Relies on `SslContextBuilder::set_cipher_list`: on success the list
/// replaces the cipher suites offered. It panics on a NUL.
#[verifier::external_body]
fn set_cipher_list(b: &mut TlsBuilder, list: &str) -> (r: Result<(), ErrorStack>)
    requires
        !holds_nul(list@),
    ensures
        r is Ok ==> final(b)@ == (TlsPosture { ciphers: Some(list@), ..old(b)@ }),
{
    b.inner.set_cipher_list(list)
}

/// Relies on `SslContextBuilder::set_ca_file`: on success the PEM CA
/// certificates in the file are trusted. It panics on a NUL.
#[verifier::external_body]
fn set_ca_file(b: &mut TlsBuilder, path: &str) -> (r: Result<(), ErrorStack>)
    requires
        !holds_nul(path@),
    ensures
        r is Ok ==> final(b)@ == (TlsPosture { ca_file: Some(path@), ..old(b)@ }),
{
    b.inner.set_ca_file(path)
}

/// Relies on `SslContextBuilder::set_certificate_file` (PEM): on success
/// the certificate is the client's identity. It panics on a NUL.
#[verifier::external_body]
fn set_certificate_file(b: &mut TlsBuilder, path: &str) -> (r: Result<(), ErrorStack>)
    requires
        !holds_nul(path@),
    ensures
        r is Ok ==> final(b)@ == (TlsPosture { cert_file: Some(path@), ..old(b)@ }),
{
    b.inner.set_certificate_file(path, SslFiletype::PEM)
}

/// Relies on `SslContextBuilder::set_private_key_file` (PEM): on success
/// the key is the client's private key. It panics on a NUL.
#[verifier::external_body]
fn set_private_key_file(b: &mut TlsBuilder, path: &str) -> (r: Result<(), ErrorStack>)
    requires
        !holds_nul(path@),
    ensures
        r is Ok ==> final(b)@ == (TlsPosture { key_file: Some(path@), ..old(b)@ }),
{
    b.inner.set_private_key_file(path, SslFiletype::PEM)
}

/// Relies on `SslConnectorBuilder::build`: the finished context keeps what
/// was installed in the builder.
#[verifier::external_body]
fn build_connector(b: TlsBuilder) -> (r: TlsContext)
    ensures
        r@ == b@,
{
    TlsContext { inner: b.inner.build(), posture: b.posture }
}

/// The error of a context build from the outcome of each step, in the
/// order they run: the protocol pin and cipher list, the CA file, the
/// client certificate, the client key. `None` for a step that does not run.
/// The first step that failed decides; `None` when none failed.
pub open spec fn first_failure_spec(
    policy_ok: bool,
    ca_ok: bool,
    cert_ok: Option<bool>,
    key_ok: Option<bool>,
) -> Option<TlsError> {
    if !policy_ok {
        Some(TlsError::CipherPolicyRejected)
    } else if !ca_ok {
        Some(TlsError::CaLoadFailed)
    } else if cert_ok == Some(false) {
        Some(TlsError::ClientCertLoadFailed)
    } else if key_ok == Some(false) {
        Some(TlsError::ClientKeyLoadFailed)
    } else {
        None
    }
}

/// The error that a context build reports, given the outcome of each step
/// (`None` for a step that does not run).
pub fn first_failure(policy_ok: bool, ca_ok: bool, cert_ok: Option<bool>, key_ok: Option<bool>) -> (r:
    Option<TlsError>)
    ensures
        r == first_failure_spec(policy_ok, ca_ok, cert_ok, key_ok),
{
    if !policy_ok {
        Some(TlsError::CipherPolicyRejected)
    } else if !ca_ok {
        Some(TlsError::CaLoadFailed)
    } else if cert_ok == Some(false) {
        Some(TlsError::ClientCertLoadFailed)
    } else if key_ok == Some(false) {
        Some(TlsError::ClientKeyLoadFailed)
    } else {
        None
    }
}

/// The error of a build whose steps failed as given.
fn failure(policy_ok: bool, ca_ok: bool, cert_ok: Option<bool>, key_ok: Option<bool>) -> (e: TlsError)
    requires
        first_failure_spec(policy_ok, ca_ok, cert_ok, key_ok) is Some,
    ensures
        first_failure_spec(policy_ok, ca_ok, cert_ok, key_ok) == Some(e),
{
    match first_failure(policy_ok, ca_ok, cert_ok, key_ok) {
        Some(e) => e,
        None => TlsError::CipherPolicyRejected,
    }
}

/// Builds a TLS client context pinned to TLS 1.2 and to `CIPHER_LIST`,
/// trusting the CA certificate at `cacert` and, where given, presenting the
/// client certificate at `cert` and its private key at `key` (PEM files).
///
/// The steps run in that order and stop at the first that fails; the error
/// is `first_failure` of the outcomes. Whether a file loads is up to the TLS
/// library and the disk. A path that holds a NUL cannot be handed to the
/// library, and its step fails.
///
/// A certificate without a key, or a key without a certificate, is not
/// refused here: each is loaded as given, and OpenSSL decides whether the
/// context can then be used for a handshake.
pub fn ssl_connector(cacert: &str, cert: Option<&str>, key: Option<&str>) -> (r: Result<
    TlsContext,
    TlsError,
>)
    ensures
        r matches Ok(c) ==> c@ == pinned_posture(CIPHER_LIST@, cacert@, opt_str(cert), opt_str(key)),
        r matches Err(e) ==> exists|p: bool, a: bool, ck: Option<bool>, kk: Option<bool>|
            (ck is Some ==> cert is Some) && (kk is Some ==> key is Some) && #[trigger] first_failure_spec(
                p,
                a,
                ck,
                kk,
            ) == Some(e),
        holds_nul(cacert@) ==> r is Err && r != Err::<TlsContext, TlsError>(
            TlsError::ClientCertLoadFailed,
        ) && r != Err::<TlsContext, TlsError>(TlsError::ClientKeyLoadFailed),
        (cert matches Some(c) && holds_nul(c@)) ==> r is Err && r != Err::<TlsContext, TlsError>(
            TlsError::ClientKeyLoadFailed,
        ),
        (key matches Some(k) && holds_nul(k@)) ==> r is Err,
{
    let mut b = match connector_builder() {
        Ok(b) => b,
        Err(_) => {
            return Err(failure(false, false, None, None));
        },
    };
    proof {
        reveal_strlit("DHE-RSA-AES128-GCM-SHA256:DHE-RSA-AES256-GCM-SHA384:!aNULL:!eNULL:!EXPORT:!DES:!3DES:!RC4:!MD5");
    }
    assert(!holds_nul(CIPHER_LIST@));
    let policy_ok = pin_min_version(&mut b).is_ok() && pin_max_version(&mut b).is_ok()
        && set_cipher_list(&mut b, CIPHER_LIST).is_ok();
    if !policy_ok {
        return Err(failure(false, false, None, None));
    }
    let ca_ok = !has_nul(cacert) && set_ca_file(&mut b, cacert).is_ok();
    if !ca_ok {
        return Err(failure(true, false, None, None));
    }
    let mut cert_ok: Option<bool> = None;
    if let Some(c) = cert {
        if has_nul(c) || set_certificate_file(&mut b, c).is_err() {
            return Err(failure(true, true, Some(false), None));
        }
        cert_ok = Some(true);
    }
    if let Some(k) = key {
        let key_ok = !has_nul(k) && set_private_key_file(&mut b, k).is_ok();
        if !key_ok {
            return Err(failure(true, true, cert_ok, Some(false)));
        }
    }
    Ok(build_connector(b))
}

} // verus!
