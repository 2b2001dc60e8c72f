use fleet_auth::auth::{Auth, AUTH_HEADER_NAME};
use fleet_auth::tls::{first_failure, has_nul, ssl_connector, TlsError, CIPHER_LIST};

const SYSTEM_CA: &str = "/etc/ssl/certs/ca-certificates.crt";
const MISSING: &str = "/nonexistent/fleet_auth/missing.pem";

fn cert_auth(cacert: &str, cert: &str, key: &str) -> Auth {
    Auth::CertAuth { cacert: cacert.to_string(), cert: cert.to_string(), key: key.to_string() }
}

fn token_auth(cacert: &str, token: &str) -> Auth {
    Auth::TokenAuth { cacert: cacert.to_string(), token: token.to_string() }
}

#[test]
fn token_mode_sends_token_header() {
    let h = token_auth(SYSTEM_CA, "s3cr3t").authentication_header().unwrap();
    assert_eq!(h.name, "X-Authentication");
    assert_eq!(h.value, "s3cr3t");
    assert_eq!(AUTH_HEADER_NAME, "X-Authentication");
}

#[test]
fn other_modes_send_no_header() {
    assert!(cert_auth("ca", "c", "k").authentication_header().is_none());
    assert!(Auth::NoAuth.authentication_header().is_none());
}

#[test]
fn tls_config_follows_mode() {
    let c = cert_auth("ca.pem", "c.pem", "k.pem").tls_config().unwrap();
    assert_eq!(c.cacert, "ca.pem");
    assert_eq!(c.cert, Some("c.pem".to_string()));
    assert_eq!(c.key, Some("k.pem".to_string()));
    let t = token_auth("ca2.pem", "tok").tls_config().unwrap();
    assert_eq!(t.cacert, "ca2.pem");
    assert_eq!(t.cert, None);
    assert_eq!(t.key, None);
    assert!(Auth::NoAuth.tls_config().is_none());
}

#[test]
fn cert_mode_with_missing_ca_fails() {
    assert_eq!(cert_auth(MISSING, MISSING, MISSING).connector().err(), Some(TlsError::CaLoadFailed));
}

#[test]
fn token_mode_with_missing_ca_fails() {
    assert_eq!(token_auth(MISSING, "tok").connector().err(), Some(TlsError::CaLoadFailed));
}

#[test]
fn cert_mode_with_missing_client_cert_fails() {
    assert_eq!(
        cert_auth(SYSTEM_CA, MISSING, MISSING).connector().err(),
        Some(TlsError::ClientCertLoadFailed)
    );
}

#[test]
fn cert_mode_with_missing_client_key_fails() {
    assert_eq!(
        cert_auth(SYSTEM_CA, SYSTEM_CA, MISSING).connector().err(),
        Some(TlsError::ClientKeyLoadFailed)
    );
}

#[test]
fn token_mode_builds_a_context() {
    let a = token_auth(SYSTEM_CA, "tok");
    assert!(matches!(a.connector(), Ok(Some(_))));
    assert!(matches!(a.connector(), Ok(Some(_))));
}

#[test]
fn no_auth_uses_default_transport() {
    assert!(matches!(Auth::NoAuth.connector(), Ok(None)));
}

#[test]
fn connector_with_only_ca() {
    assert!(ssl_connector(SYSTEM_CA, None, None).is_ok());
    assert_eq!(ssl_connector(MISSING, None, None).err(), Some(TlsError::CaLoadFailed));
}

#[test]
fn nul_in_path_is_refused() {
    assert_eq!(ssl_connector("ca\0.pem", None, None).err(), Some(TlsError::CaLoadFailed));
    assert_eq!(
        ssl_connector(SYSTEM_CA, Some("c\0.pem"), None).err(),
        Some(TlsError::ClientCertLoadFailed)
    );
    assert!(has_nul("a\0b"));
    assert!(!has_nul("ab"));
}

#[test]
fn cipher_list_excludes_weak_families() {
    for weak in ["!aNULL", "!eNULL", "!EXPORT", "!DES", "!3DES", "!RC4", "!MD5"] {
        assert!(CIPHER_LIST.contains(weak));
    }
    let allowed: Vec<&str> = CIPHER_LIST.split(':').filter(|s| !s.starts_with('!')).collect();
    assert_eq!(allowed, vec!["DHE-RSA-AES128-GCM-SHA256", "DHE-RSA-AES256-GCM-SHA384"]);
}

#[test]
fn first_failing_step_decides_the_error() {
    assert_eq!(first_failure(false, false, Some(false), Some(false)), Some(TlsError::CipherPolicyRejected));
    assert_eq!(first_failure(true, false, Some(false), Some(false)), Some(TlsError::CaLoadFailed));
    assert_eq!(first_failure(true, true, Some(false), Some(false)), Some(TlsError::ClientCertLoadFailed));
    assert_eq!(first_failure(true, true, Some(true), Some(false)), Some(TlsError::ClientKeyLoadFailed));
    assert_eq!(first_failure(true, true, None, Some(false)), Some(TlsError::ClientKeyLoadFailed));
    assert_eq!(first_failure(true, true, Some(true), Some(true)), None);
    assert_eq!(first_failure(true, true, None, None), None);
}

#[test]
fn missing_ca_decides_over_missing_cert() {
    assert_eq!(ssl_connector(MISSING, Some(MISSING), Some(MISSING)).err(), Some(TlsError::CaLoadFailed));
    assert_eq!(
        ssl_connector(SYSTEM_CA, Some(MISSING), Some(MISSING)).err(),
        Some(TlsError::ClientCertLoadFailed)
    );
    assert_eq!(ssl_connector(SYSTEM_CA, None, Some(MISSING)).err(), Some(TlsError::ClientKeyLoadFailed));
}
