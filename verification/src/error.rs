//! The errors of the listener, and the classes of accept failures.

use crate::outside::{error_kind, io_error_kind};
use vstd::prelude::*;

verus! {

/// Why a TLS configuration did not resolve to an acceptor.
#[derive(Clone, Copy, Debug, PartialEq, Eq, Structural)]
pub enum ConfigError {
    /// The certificate file does not hold a certificate chain.
    InvalidCertificate,
    /// The key file does not hold a private key.
    InvalidKey,
    /// The files could not be opened.
    Io,
    /// There is nothing to resolve from.
    Unconfigured,
}

/// What stopped the loading of a certificate and key pair.
#[derive(Clone, Copy, Debug, PartialEq, Eq, Structural)]
pub enum LoadFailure {
    /// A file could not be opened or read.
    Unreadable,
    /// The certificate file was read and is not a certificate chain.
    Certificate,
    /// The key file was read and is not a private key.
    Key,
}

/// The kind of an error that an accept attempt ended with.
#[derive(Clone, Copy, Debug, PartialEq, Eq, Structural)]
pub enum AcceptErrorKind {
    /// The peer refused the connection.
    ConnectionRefused,
    /// The peer aborted the connection.
    ConnectionAborted,
    /// The peer reset the connection.
    ConnectionReset,
    /// Anything else.
    Other,
}

/// Why the listener did not bind, cannot accept, or gave a connection up.
#[derive(Debug)]
pub enum ListenError {
    /// The socket could not be bound; the error is the one that binding gave.
    Bind(std::io::Error),
    /// An option could not be set on an accepted socket, and the connection
    /// was given up; the error is the one that setting the option gave. The
    /// listener goes on accepting.
    SocketOption(std::io::Error),
    /// There is no bound socket.
    NotBound,
    /// There is no acceptor.
    NoAcceptor,
    /// There is no application to dispatch to.
    NoServer,
    /// The listener has stopped or failed for good.
    Halted,
}

impl LoadFailure {
    /// The configuration error that a failed load is reported as.
    pub open spec fn config_error(self) -> ConfigError {
        match self {
            LoadFailure::Unreadable => ConfigError::Io,
            LoadFailure::Certificate => ConfigError::InvalidCertificate,
            LoadFailure::Key => ConfigError::InvalidKey,
        }
    }

    /// The configuration error that this failure is reported as.
    pub fn to_config_error(self) -> (r: ConfigError)
        ensures
            r == self.config_error(),
        no_unwind
    {
        match self {
            LoadFailure::Unreadable => ConfigError::Io,
            LoadFailure::Certificate => ConfigError::InvalidCertificate,
            LoadFailure::Key => ConfigError::InvalidKey,
        }
    }
}

impl ConfigError {
    /// The text of this error.
    pub open spec fn text(self) -> Seq<char> {
        match self {
            ConfigError::InvalidCertificate => "invalid certificate"@,
            ConfigError::InvalidKey => "invalid private key"@,
            ConfigError::Io => "could not open the certificate or key file"@,
            ConfigError::Unconfigured => "need exactly one of cert + key or an acceptor"@,
        }
    }

    /// A description of this error for people.
    pub fn message(&self) -> (r: &'static str)
        ensures
            r@ == self.text(),
    {
        match self {
            ConfigError::InvalidCertificate => "invalid certificate",
            ConfigError::InvalidKey => "invalid private key",
            ConfigError::Io => "could not open the certificate or key file",
            ConfigError::Unconfigured => "need exactly one of cert + key or an acceptor",
        }
    }
}

impl ListenError {
    /// The text of this error.
    pub open spec fn text(self) -> Seq<char> {
        match self {
            ListenError::Bind(_) => "could not bind the listener"@,
            ListenError::SocketOption(_) => "could not set the socket options"@,
            ListenError::NotBound => "accept - listener"@,
            ListenError::NoAcceptor => "accept - acceptor"@,
            ListenError::NoServer => "accept - server"@,
            ListenError::Halted => "accept - halted"@,
        }
    }

    /// A description of this error for people.
    pub fn message(&self) -> (r: &'static str)
        ensures
            r@ == self.text(),
    {
        match self {
            ListenError::Bind(_) => "could not bind the listener",
            ListenError::SocketOption(_) => "could not set the socket options",
            ListenError::NotBound => "accept - listener",
            ListenError::NoAcceptor => "accept - acceptor",
            ListenError::NoServer => "accept - server",
            ListenError::Halted => "accept - halted",
        }
    }
}

impl AcceptErrorKind {
    /// Whether a failure of this kind is transient: the peer went away before
    /// the accept completed.
    pub open spec fn transient(self) -> bool {
        self is ConnectionRefused || self is ConnectionAborted || self is ConnectionReset
    }

    /// Whether a failure of this kind is transient.
    pub fn is_transient(self) -> (r: bool)
        ensures
            r == self.transient(),
    {
        match self {
            AcceptErrorKind::ConnectionRefused => true,
            AcceptErrorKind::ConnectionAborted => true,
            AcceptErrorKind::ConnectionReset => true,
            AcceptErrorKind::Other => false,
        }
    }
}

/// Whether an accept attempt that ended with `e` may be retried at once.
pub fn is_transient_error(e: &std::io::Error) -> (r: bool)
    ensures
        r == io_error_kind(*e).transient(),
{
    error_kind(e).is_transient()
}

} // verus!
