//! The TLS configuration of a listener: certificate and key files that are
//! still to be loaded, or the acceptor that was made from them.

use crate::error::{ConfigError, LoadFailure};
use vstd::prelude::*;

verus! {

/// What a listener has to make its TLS sessions from.
pub enum TlsListenerConfig {
    /// Nothing was supplied.
    Unconfigured,
    /// The paths of a certificate chain file and of a private key file, not
    /// loaded yet.
    Paths { cert: String, key: String },
    /// The acceptor, ready for handshakes.
    Acceptor(openssl::ssl::SslAcceptor),
}

/// Whether a borrowed result is the given one.
pub open spec fn borrows<T, E>(r: Result<&T, E>, of: Result<T, E>) -> bool {
    match (r, of) {
        (Ok(a), Ok(b)) => *a == b,
        (Err(a), Err(b)) => a == b,
        _ => false,
    }
}

impl TlsListenerConfig {
    /// The configuration after an attempt to resolve it, and what the attempt
    /// gives: the acceptor, or why there is none.
    ///
    /// An acceptor that is already there stays, whatever was loaded. Pending
    /// paths are replaced by the acceptor loaded from them; when loading
    /// failed they stay, and the failure says which error it is. Pending paths
    /// with nothing loaded, and no configuration at all, are unconfigured.
    pub open spec fn resolved(
        self,
        loaded: Option<Result<openssl::ssl::SslAcceptor, LoadFailure>>,
    ) -> (TlsListenerConfig, Result<openssl::ssl::SslAcceptor, ConfigError>) {
        match self {
            TlsListenerConfig::Acceptor(acceptor) => (self, Ok(acceptor)),
            TlsListenerConfig::Paths { .. } => match loaded {
                Some(Ok(acceptor)) => (TlsListenerConfig::Acceptor(acceptor), Ok(acceptor)),
                Some(Err(failure)) => (self, Err(failure.config_error())),
                None => (self, Err(ConfigError::Unconfigured)),
            },
            TlsListenerConfig::Unconfigured => (self, Err(ConfigError::Unconfigured)),
        }
    }

    /// The certificate and key paths that are still to be loaded.
    pub fn pending_files(&self) -> (r: Option<(&String, &String)>)
        ensures
            r is Some <==> self is Paths,
            r matches Some(paths) ==> *paths.0 == self->cert && *paths.1 == self->key,
    {
        match self {
            TlsListenerConfig::Paths { cert, key } => Some((cert, key)),
            _ => None,
        }
    }

    /// The acceptor, once there is one.
    pub fn acceptor(&self) -> (r: Option<&openssl::ssl::SslAcceptor>)
        ensures
            r is Some <==> self is Acceptor,
            r matches Some(acceptor) ==> *acceptor == self->Acceptor_0,
    {
        match self {
            TlsListenerConfig::Acceptor(acceptor) => Some(acceptor),
            _ => None,
        }
    }

    /// Resolves the configuration into an acceptor.
    ///
    /// `loaded` is what loading the pending files gave, or `None` where
    /// nothing was loaded. The first success replaces the paths by the
    /// acceptor; from then on every call returns that acceptor and changes
    /// nothing.
    pub fn resolve(
        &mut self,
        loaded: Option<Result<openssl::ssl::SslAcceptor, LoadFailure>>,
    ) -> (r: Result<&openssl::ssl::SslAcceptor, ConfigError>)
        ensures
            *final(self) == old(self).resolved(loaded).0,
            borrows(r, old(self).resolved(loaded).1),
        no_unwind
    {
        if let TlsListenerConfig::Paths { .. } = self {
            match loaded {
                Some(Ok(acceptor)) => {
                    *self = TlsListenerConfig::Acceptor(acceptor);
                },
                Some(Err(failure)) => {
                    return Err(failure.to_config_error());
                },
                None => {
                    return Err(ConfigError::Unconfigured);
                },
            }
        }
        match self {
            TlsListenerConfig::Acceptor(acceptor) => Ok(acceptor),
            _ => Err(ConfigError::Unconfigured),
        }
    }
}

impl Default for TlsListenerConfig {
    fn default() -> (r: TlsListenerConfig)
        ensures
            r == TlsListenerConfig::Unconfigured,
    {
        TlsListenerConfig::Unconfigured
    }
}

} // verus!
