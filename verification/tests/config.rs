use openssl::ssl::{SslAcceptor, SslMethod};
use tide_openssl::{ConfigError, LoadFailure, TlsListenerConfig};

fn acceptor() -> SslAcceptor {
    SslAcceptor::mozilla_modern_v5(SslMethod::tls()).unwrap().build()
}

fn same(a: &SslAcceptor, b: &SslAcceptor) -> bool {
    std::ptr::eq(a.context(), b.context())
}

fn paths() -> TlsListenerConfig {
    TlsListenerConfig::Paths {
        cert: String::from("tls/cert.pem"),
        key: String::from("tls/key.pem"),
    }
}

#[test]
fn the_default_configuration_is_unconfigured() {
    assert!(matches!(TlsListenerConfig::default(), TlsListenerConfig::Unconfigured));
}

#[test]
fn paths_are_pending_until_they_are_resolved() {
    let config = paths();
    let (cert, key) = config.pending_files().unwrap();
    assert_eq!(cert, "tls/cert.pem");
    assert_eq!(key, "tls/key.pem");
    assert!(config.acceptor().is_none());
}

#[test]
fn nothing_is_pending_without_paths() {
    assert!(TlsListenerConfig::Unconfigured.pending_files().is_none());
    assert!(TlsListenerConfig::Unconfigured.acceptor().is_none());
    let config = TlsListenerConfig::Acceptor(acceptor());
    assert!(config.pending_files().is_none());
    assert!(config.acceptor().is_some());
}

#[test]
fn paths_resolve_to_the_loaded_acceptor() {
    let loaded = acceptor();
    let keep = loaded.clone();
    let mut config = paths();
    {
        let got = config.resolve(Some(Ok(loaded))).unwrap();
        assert!(same(got, &keep));
    }
    assert!(matches!(config, TlsListenerConfig::Acceptor(_)));
    assert!(same(config.acceptor().unwrap(), &keep));
    assert!(config.pending_files().is_none());
}

#[test]
fn resolving_twice_gives_the_same_acceptor() {
    let loaded = acceptor();
    let keep = loaded.clone();
    let other = acceptor();
    assert!(!same(&other, &keep));
    let mut config = paths();
    assert!(same(config.resolve(Some(Ok(loaded))).unwrap(), &keep));
    assert!(same(config.resolve(None).unwrap(), &keep));
    assert!(same(config.resolve(Some(Ok(other))).unwrap(), &keep));
    assert!(same(config.resolve(Some(Err(LoadFailure::Certificate))).unwrap(), &keep));
    assert!(same(config.acceptor().unwrap(), &keep));
}

#[test]
fn an_acceptor_given_from_the_start_resolves_to_itself() {
    let given = acceptor();
    let keep = given.clone();
    let mut config = TlsListenerConfig::Acceptor(given);
    assert!(same(config.resolve(None).unwrap(), &keep));
    assert!(same(config.resolve(Some(Ok(acceptor()))).unwrap(), &keep));
}

#[test]
fn a_malformed_certificate_is_an_invalid_certificate() {
    let mut config = paths();
    assert_eq!(
        config.resolve(Some(Err(LoadFailure::Certificate))).err(),
        Some(ConfigError::InvalidCertificate)
    );
    assert!(matches!(config, TlsListenerConfig::Paths { .. }));
    assert!(config.acceptor().is_none());
}

#[test]
fn a_malformed_key_is_an_invalid_key() {
    let mut config = paths();
    assert_eq!(
        config.resolve(Some(Err(LoadFailure::Key))).err(),
        Some(ConfigError::InvalidKey)
    );
    assert!(matches!(config, TlsListenerConfig::Paths { .. }));
}

#[test]
fn files_that_cannot_be_opened_are_an_io_error() {
    let mut config = paths();
    assert_eq!(
        config.resolve(Some(Err(LoadFailure::Unreadable))).err(),
        Some(ConfigError::Io)
    );
    let (cert, key) = config.pending_files().unwrap();
    assert_eq!(cert, "tls/cert.pem");
    assert_eq!(key, "tls/key.pem");
}

#[test]
fn paths_with_nothing_loaded_are_unconfigured() {
    let mut config = paths();
    assert_eq!(config.resolve(None).err(), Some(ConfigError::Unconfigured));
    assert!(matches!(config, TlsListenerConfig::Paths { .. }));
}

#[test]
fn no_configuration_is_unconfigured_whatever_was_loaded() {
    let mut config = TlsListenerConfig::Unconfigured;
    assert_eq!(config.resolve(None).err(), Some(ConfigError::Unconfigured));
    assert_eq!(config.resolve(Some(Ok(acceptor()))).err(), Some(ConfigError::Unconfigured));
    assert_eq!(
        config.resolve(Some(Err(LoadFailure::Key))).err(),
        Some(ConfigError::Unconfigured)
    );
    assert!(matches!(config, TlsListenerConfig::Unconfigured));
}

#[test]
fn a_failed_load_maps_to_its_error() {
    assert_eq!(LoadFailure::Unreadable.to_config_error(), ConfigError::Io);
    assert_eq!(LoadFailure::Certificate.to_config_error(), ConfigError::InvalidCertificate);
    assert_eq!(LoadFailure::Key.to_config_error(), ConfigError::InvalidKey);
}

#[test]
fn configuration_errors_say_what_they_are() {
    assert_eq!(ConfigError::InvalidCertificate.message(), "invalid certificate");
    assert_eq!(ConfigError::InvalidKey.message(), "invalid private key");
    assert_eq!(ConfigError::Io.message(), "could not open the certificate or key file");
    assert_eq!(
        ConfigError::Unconfigured.message(),
        "need exactly one of cert + key or an acceptor"
    );
}
