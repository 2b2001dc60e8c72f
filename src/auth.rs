use vstd::prelude::*;
use crate::tls::{pinned_posture, ssl_connector, TlsContext, TlsError, CIPHER_LIST};

verus! {

/// The header that carries the bearer token.
pub const AUTH_HEADER_NAME: &'static str = "X-Authentication";

/// How the client authenticates to the servers. Fixed once configured.
pub enum Auth {
    /// Mutual TLS: the server is checked against `cacert`, and the client
    /// presents the certificate `cert` with its private key `key`.
    CertAuth { cacert: String, cert: String, key: String },
    /// No authentication; TLS only where the URL asks for it.
    NoAuth,
    /// Server-checked TLS against `cacert`; the client sends `token` in the
    /// authentication header.
    TokenAuth { cacert: String, token: String },
}

/// What a TLS context is built from: the CA certificate and, for mutual
/// TLS, the client's certificate and key (all file paths).
pub struct TlsConfig {
    pub cacert: String,
    pub cert: Option<String>,
    pub key: Option<String>,
}

/// The view of a TLS configuration.
pub struct TlsConfigView {
    pub cacert: Seq<char>,
    pub cert: Option<Seq<char>>,
    pub key: Option<Seq<char>>,
}

/// The view of an optional string.
pub open spec fn opt_view(s: Option<String>) -> Option<Seq<char>> {
    match s {
        Some(x) => Some(x@),
        None => None,
    }
}

impl View for TlsConfig {
    type V = TlsConfigView;

    open spec fn view(&self) -> TlsConfigView {
        TlsConfigView { cacert: self.cacert@, cert: opt_view(self.cert), key: opt_view(self.key) }
    }
}

/// A header name and value.
pub struct AuthHeader {
    pub name: String,
    pub value: String,
}

impl Auth {
    /// The TLS configuration the mode asks for: mutual TLS for `CertAuth`,
    /// server-only TLS for `TokenAuth`, none for `NoAuth`.
    pub open spec fn tls_config_spec(&self) -> Option<TlsConfigView> {
        match self {
            Auth::CertAuth { cacert, cert, key } => Some(
                TlsConfigView { cacert: cacert@, cert: Some(cert@), key: Some(key@) },
            ),
            Auth::TokenAuth { cacert, .. } => Some(
                TlsConfigView { cacert: cacert@, cert: None, key: None },
            ),
            Auth::NoAuth => None,
        }
    }

    /// The header that the mode puts on each request, as name and value.
    pub open spec fn header_spec(&self) -> Option<(Seq<char>, Seq<char>)> {
        match self {
            Auth::TokenAuth { token, .. } => Some((AUTH_HEADER_NAME@, token@)),
            _ => None,
        }
    }

    /// The TLS configuration of this mode.
    pub fn tls_config(&self) -> (r: Option<TlsConfig>)
        ensures
            match r {
                Some(c) => self.tls_config_spec() == Some(c@),
                None => self.tls_config_spec() is None,
            },
    {
        match self {
            Auth::CertAuth { cacert, cert, key } => Some(
                TlsConfig { cacert: cacert.clone(), cert: Some(cert.clone()), key: Some(key.clone()) },
            ),
            Auth::TokenAuth { cacert, .. } => Some(
                TlsConfig { cacert: cacert.clone(), cert: None, key: None },
            ),
            Auth::NoAuth => None,
        }
    }

    /// The authentication header of this mode: `X-Authentication` with the
    /// token verbatim for `TokenAuth`, none for the other modes.
    pub fn authentication_header(&self) -> (r: Option<AuthHeader>)
        ensures
            match r {
                Some(h) => self.header_spec() == Some((h.name@, h.value@)),
                None => self.header_spec() is None,
            },
    {
        match self {
            Auth::TokenAuth { token, .. } => Some(
                AuthHeader { name: String::from_str(AUTH_HEADER_NAME), value: token.clone() },
            ),
            _ => None,
        }
    }

    /// The TLS context of this mode, built afresh on each call from its
    /// TLS configuration: `None` for `NoAuth`, which uses the default
    /// transport. Only `CertAuth` loads a client certificate and key, so
    /// only it fails on them.
    pub fn connector(&self) -> (r: Result<Option<TlsContext>, TlsError>)
        ensures
            r matches Ok(None) <==> self is NoAuth,
            r matches Ok(Some(c)) ==> built_for(self, c),
            r == Err::<Option<TlsContext>, TlsError>(TlsError::ClientCertLoadFailed)
                ==> self is CertAuth,
            r == Err::<Option<TlsContext>, TlsError>(TlsError::ClientKeyLoadFailed)
                ==> self is CertAuth,
    {
        match self.tls_config() {
            Some(t) => {
                let cert = match &t.cert {
                    Some(c) => Some(c.as_str()),
                    None => None,
                };
                let key = match &t.key {
                    Some(k) => Some(k.as_str()),
                    None => None,
                };
                match ssl_connector(t.cacert.as_str(), cert, key) {
                    Ok(c) => Ok(Some(c)),
                    Err(e) => Err(e),
                }
            },
            None => Ok(None),
        }
    }
}

/// A context was built for the mode: pinned to TLS 1.2 and `CIPHER_LIST`,
/// from the mode's own TLS configuration.
pub open spec fn built_for(a: &Auth, c: TlsContext) -> bool {
    a.tls_config_spec() matches Some(t) && c@ == pinned_posture(
        CIPHER_LIST@,
        t.cacert,
        t.cert,
        t.key,
    )
}

/// A context built for a mode matches the mode's kind: it trusts the
/// mode's CA file, presents a client certificate and key exactly under
/// `CertAuth` (those of the mode), and is never built for `NoAuth`; the
/// token header is sent exactly under `TokenAuth`.
pub proof fn lemma_capability_matches_mode(a: Auth, c: TlsContext)
    requires
        built_for(&a, c),
    ensures
        !(a is NoAuth),
        c@.min_tls12 && c@.max_tls12 && c@.ciphers == Some(CIPHER_LIST@),
        a matches Auth::CertAuth { cacert, cert, key } ==> c@.ca_file == Some(cacert@)
            && c@.cert_file == Some(cert@) && c@.key_file == Some(key@),
        a matches Auth::TokenAuth { cacert, .. } ==> c@.ca_file == Some(cacert@)
            && c@.cert_file is None && c@.key_file is None,
        a.header_spec() is Some <==> a is TokenAuth,
{
}

/// Two contexts built for one mode, as by two calls of `connector`, have
/// the same posture: the same protocol pin, cipher list, CA file and client
/// identity.
pub proof fn lemma_same_mode_same_posture(a: Auth, c1: TlsContext, c2: TlsContext)
    requires
        built_for(&a, c1),
        built_for(&a, c2),
    ensures
        c1@ == c2@,
{
}

} // verus!
