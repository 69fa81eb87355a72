//! The builder of a listener.

use crate::tcp_connection::{BoundSocket, TcpConnection};
use crate::tls_listener::{ListenerModel, TlsListener};
use crate::tls_listener_config::TlsListenerConfig;
use crate::accept::SocketOptions;
use vstd::prelude::*;

verus! {

/// Why a builder did not give a listener.
#[derive(Clone, Copy, Debug, PartialEq, Eq, Structural)]
pub enum BuildError {
    /// Neither a certificate with its key nor an acceptor was given, or more
    /// than that.
    TlsConfig,
    /// Neither addresses nor a bound socket were given, or both.
    Connection,
}

/// What a builder holds, to its contracts.
pub struct BuilderModel {
    /// The path of the certificate chain file.
    pub cert: Option<String>,
    /// The path of the private key file.
    pub key: Option<String>,
    /// An acceptor made elsewhere.
    pub acceptor: Option<openssl::ssl::SslAcceptor>,
    /// The addresses to bind.
    pub addrs: Option<Vec<String>>,
    /// A socket bound elsewhere.
    pub tcp: Option<BoundSocket>,
    /// The no-delay flag for accepted sockets.
    pub tcp_nodelay: Option<bool>,
    /// The time-to-live for accepted sockets.
    pub tcp_ttl: Option<u32>,
}

impl BuilderModel {
    /// A builder with nothing set.
    pub open spec fn empty() -> BuilderModel {
        BuilderModel {
            cert: None,
            key: None,
            acceptor: None,
            addrs: None,
            tcp: None,
            tcp_nodelay: None,
            tcp_ttl: None,
        }
    }

    /// The TLS configuration that was asked for: a certificate with its key,
    /// or an acceptor, and nothing else.
    pub open spec fn config(self) -> Option<TlsListenerConfig> {
        match (self.cert, self.key, self.acceptor) {
            (Some(cert), Some(key), None) => Some(TlsListenerConfig::Paths { cert, key }),
            (None, None, Some(acceptor)) => Some(TlsListenerConfig::Acceptor(acceptor)),
            _ => None,
        }
    }

    /// The connection target that was asked for: addresses, or a bound
    /// socket, and not both.
    pub open spec fn connection(self) -> Option<TcpConnection> {
        match (self.tcp, self.addrs) {
            (Some(socket), None) => Some(TcpConnection::Connected(socket)),
            (None, Some(addrs)) => Some(TcpConnection::Addrs(addrs)),
            _ => None,
        }
    }

    /// The listener that the builder gives, or why it gives none. A TLS
    /// configuration that is not in order is reported before a connection
    /// target that is not.
    pub open spec fn finished<State>(self) -> Result<ListenerModel<State>, BuildError> {
        match (self.config(), self.connection()) {
            (None, _) => Err(BuildError::TlsConfig),
            (Some(_), None) => Err(BuildError::Connection),
            (Some(config), Some(connection)) => Ok(
                ListenerModel::init(
                    connection,
                    config,
                    SocketOptions { nodelay: self.tcp_nodelay, ttl: self.tcp_ttl },
                ),
            ),
        }
    }
}

/// Whether a built listener is the given one.
pub open spec fn builds<State>(
    r: Result<TlsListener<State>, BuildError>,
    of: Result<ListenerModel<State>, BuildError>,
) -> bool {
    match (r, of) {
        (Ok(listener), Ok(model)) => listener@ == model,
        (Err(a), Err(b)) => a == b,
        _ => false,
    }
}

/// Collects what a listener is made from.
#[verifier::reject_recursive_types(State)]
pub struct TlsListenerBuilder<State> {
    cert: Option<String>,
    key: Option<String>,
    acceptor: Option<openssl::ssl::SslAcceptor>,
    addrs: Option<Vec<String>>,
    tcp: Option<BoundSocket>,
    tcp_nodelay: Option<bool>,
    tcp_ttl: Option<u32>,
    state: core::marker::PhantomData<State>,
}

impl<State> View for TlsListenerBuilder<State> {
    type V = BuilderModel;

    closed spec fn view(&self) -> BuilderModel {
        BuilderModel {
            cert: self.cert,
            key: self.key,
            acceptor: self.acceptor,
            addrs: self.addrs,
            tcp: self.tcp,
            tcp_nodelay: self.tcp_nodelay,
            tcp_ttl: self.tcp_ttl,
        }
    }
}

impl BuildError {
    /// The text of this error.
    pub open spec fn text(self) -> Seq<char> {
        match self {
            BuildError::TlsConfig => "need exactly one of cert + key or an acceptor"@,
            BuildError::Connection => "either tcp or addrs are required"@,
        }
    }

    /// A description of this error for people.
    pub fn message(&self) -> (r: &'static str)
        ensures
            r@ == self.text(),
    {
        match self {
            BuildError::TlsConfig => "need exactly one of cert + key or an acceptor",
            BuildError::Connection => "either tcp or addrs are required",
        }
    }
}

impl<State> TlsListenerBuilder<State> {
    /// A builder with nothing set.
    pub fn new() -> (r: Self)
        ensures
            r@ == BuilderModel::empty(),
    {
        TlsListenerBuilder {
            cert: None,
            key: None,
            acceptor: None,
            addrs: None,
            tcp: None,
            tcp_nodelay: None,
            tcp_ttl: None,
            state: core::marker::PhantomData,
        }
    }

    /// Sets the path of the certificate chain file.
    pub fn cert(self, path: String) -> (r: Self)
        ensures
            r@ == (BuilderModel { cert: Some(path), ..self@ }),
    {
        TlsListenerBuilder { cert: Some(path), ..self }
    }

    /// Sets the path of the private key file.
    pub fn key(self, path: String) -> (r: Self)
        ensures
            r@ == (BuilderModel { key: Some(path), ..self@ }),
    {
        TlsListenerBuilder { key: Some(path), ..self }
    }

    /// Sets an acceptor that was made elsewhere.
    pub fn acceptor(self, acceptor: openssl::ssl::SslAcceptor) -> (r: Self)
        ensures
            r@ == (BuilderModel { acceptor: Some(acceptor), ..self@ }),
    {
        TlsListenerBuilder { acceptor: Some(acceptor), ..self }
    }

    /// Sets the addresses to bind, `host:port` each, in the order in which
    /// they are to be tried.
    pub fn addrs(self, addrs: Vec<String>) -> (r: Self)
        ensures
            r@ == (BuilderModel { addrs: Some(addrs), ..self@ }),
    {
        TlsListenerBuilder { addrs: Some(addrs), ..self }
    }

    /// Sets a socket that was bound elsewhere.
    pub fn tcp(self, socket: BoundSocket) -> (r: Self)
        ensures
            r@ == (BuilderModel { tcp: Some(socket), ..self@ }),
    {
        TlsListenerBuilder { tcp: Some(socket), ..self }
    }

    /// Sets the no-delay flag for accepted sockets.
    pub fn tcp_nodelay(self, nodelay: bool) -> (r: Self)
        ensures
            r@ == (BuilderModel { tcp_nodelay: Some(nodelay), ..self@ }),
    {
        TlsListenerBuilder { tcp_nodelay: Some(nodelay), ..self }
    }

    /// Sets the time-to-live for accepted sockets.
    pub fn tcp_ttl(self, ttl: u32) -> (r: Self)
        ensures
            r@ == (BuilderModel { tcp_ttl: Some(ttl), ..self@ }),
    {
        TlsListenerBuilder { tcp_ttl: Some(ttl), ..self }
    }

    /// The listener made from what was set, or why there is none.
    pub fn finish(self) -> (r: Result<TlsListener<State>, BuildError>)
        ensures
            builds(r, self@.finished()),
    {
        let config = match (self.cert, self.key, self.acceptor) {
            (Some(cert), Some(key), None) => TlsListenerConfig::Paths { cert, key },
            (None, None, Some(acceptor)) => TlsListenerConfig::Acceptor(acceptor),
            _ => {
                return Err(BuildError::TlsConfig);
            },
        };
        let connection = match (self.tcp, self.addrs) {
            (Some(socket), None) => TcpConnection::Connected(socket),
            (None, Some(addrs)) => TcpConnection::Addrs(addrs),
            _ => {
                return Err(BuildError::Connection);
            },
        };
        Ok(TlsListener::new(connection, config, self.tcp_nodelay, self.tcp_ttl))
    }
}

} // verus!
