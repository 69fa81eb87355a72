//! The core of a TLS listener for tide, on openssl: the listener's lifecycle,
//! the decisions of its accept loop and of each connection's handler, and the
//! data they work on.
//!
//! The listener is configured, then bound, then accepts. Sockets, handshakes
//! and the HTTP codec are driven by the caller, who reports each outcome and
//! is told what to do next; every such decision is made, and proved, here.

pub mod accept;
pub mod connection;
pub mod error;
pub mod outside;
pub mod tcp_connection;
pub mod text;
pub mod tls_listener;
pub mod tls_listener_builder;
pub mod tls_listener_config;

pub use accept::{AcceptAction, AcceptEvent, Phase, SocketOptions, ACCEPT_BACKOFF_MILLIS};
pub use connection::{Connection, Failure, HandlerAction, HandlerEvent, HandlerState};
pub use error::{is_transient_error, AcceptErrorKind, ConfigError, ListenError, LoadFailure};
pub use tcp_connection::{BoundSocket, TcpConnection};
pub use tls_listener::TlsListener;
pub use tls_listener_builder::{BuildError, TlsListenerBuilder};
pub use tls_listener_config::TlsListenerConfig;
