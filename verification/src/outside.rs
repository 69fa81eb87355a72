//! The boundary to tide, http-types, openssl, async-std and `std::io`: the
//! types that are carried through the library unopened, and the few calls
//! whose behaviour is taken on trust from their sources.

use crate::error::AcceptErrorKind;
use vstd::prelude::*;

verus! {

/// `std::io::Error`, carried through unopened.
#[verifier::external_type_specification]
#[verifier::external_body]
pub struct ExIoError(std::io::Error);

/// `openssl::ssl::SslAcceptor`, carried through unopened.
#[verifier::external_type_specification]
#[verifier::external_body]
pub struct ExSslAcceptor(openssl::ssl::SslAcceptor);

/// `async_std::net::TcpListener`, carried through unopened.
#[verifier::external_type_specification]
#[verifier::external_body]
pub struct ExTcpListener(async_std::net::TcpListener);

/// `async_std::net::TcpStream`, carried through unopened.
#[verifier::external_type_specification]
#[verifier::external_body]
pub struct ExTcpStream(async_std::net::TcpStream);

/// `openssl::ssl::Ssl`, carried through unopened.
#[verifier::external_type_specification]
#[verifier::external_body]
pub struct ExSsl(openssl::ssl::Ssl);

/// `openssl::error::ErrorStack`, carried through unopened.
#[verifier::external_type_specification]
#[verifier::external_body]
pub struct ExErrorStack(openssl::error::ErrorStack);

/// `async_std_openssl::SslStream`, carried through unopened.
#[verifier::external_type_specification]
#[verifier::external_body]
#[verifier::reject_recursive_types(S)]
pub struct ExSslStream<S>(async_std_openssl::SslStream<S>);

/// `tide::Server`, carried through unopened.
#[verifier::external_type_specification]
#[verifier::external_body]
#[verifier::reject_recursive_types(State)]
pub struct ExServer<State>(tide::Server<State>);

/// `http_types::Request`, as tide hands it on. Of what it holds only
/// [`request_meta`] is spoken of.
#[verifier::external_type_specification]
#[verifier::external_body]
pub struct ExRequest(tide::http::Request);

/// `tide::listener::ListenInfo`. Of what it holds only [`listen_summary`] is
/// spoken of.
#[verifier::external_type_specification]
#[verifier::external_body]
pub struct ExListenInfo(tide::listener::ListenInfo);

/// What this library reads and writes of an HTTP request.
pub struct RequestMeta {
    /// The scheme of the request's URL.
    pub scheme: Seq<char>,
    /// The address the request was received on.
    pub local_addr: Option<Seq<char>>,
    /// The address of the peer that sent the request.
    pub peer_addr: Option<Seq<char>>,
}

/// What a `ListenInfo` reports.
pub struct ListenSummary {
    /// The connection string.
    pub connection: Seq<char>,
    /// The transport, such as "tcp".
    pub transport: Seq<char>,
    /// Whether the connection is encrypted.
    pub tls: bool,
}

/// What `std::io::Error::kind` gives for an error, as far as the accept loop
/// tells kinds apart.
pub uninterp spec fn io_error_kind(e: std::io::Error) -> AcceptErrorKind;

/// The scheme of the URL and the two addresses that a request holds: what
/// `url().scheme()`, `local_addr()` and `peer_addr()` give for it.
pub uninterp spec fn request_meta(req: tide::http::Request) -> RequestMeta;

/// Whether `url::Url::set_scheme` takes the scheme on the URL of the request:
/// it decides by the URL and the scheme alone.
pub uninterp spec fn takes_scheme(req: tide::http::Request, scheme: Seq<char>) -> bool;

/// The three values that a `ListenInfo` holds: what `connection()`,
/// `transport()` and `is_encrypted()` give for it.
pub uninterp spec fn listen_summary(info: tide::listener::ListenInfo) -> ListenSummary;

/// The view of an optional string.
pub open spec fn text_of(s: Option<String>) -> Option<Seq<char>> {
    match s {
        Some(s) => Some(s@),
        None => None,
    }
}

/// A scheme of two to sixteen lower-case ASCII letters and nothing else.
pub open spec fn plain_scheme(s: Seq<char>) -> bool {
    &&& 2 <= s.len() <= 16
    &&& forall|i: int| 0 <= i < s.len() ==> 'a' <= #[trigger] s[i] <= 'z'
}

/// `std::io::Error::kind`, with every kind but the three connection kinds
/// folded into `Other`. Trusted: that the kind is a function of the error.
#[verifier::external_body]
pub(crate) fn error_kind(e: &std::io::Error) -> (kind: AcceptErrorKind)
    ensures
        kind == io_error_kind(*e),
{
    match e.kind() {
        std::io::ErrorKind::ConnectionRefused => AcceptErrorKind::ConnectionRefused,
        std::io::ErrorKind::ConnectionAborted => AcceptErrorKind::ConnectionAborted,
        std::io::ErrorKind::ConnectionReset => AcceptErrorKind::ConnectionReset,
        _ => AcceptErrorKind::Other,
    }
}

/// `async_std::net::TcpListener::local_addr`, as text where the socket gives
/// an address. Nothing is claimed of the outcome.
#[verifier::external_body]
pub(crate) fn listener_local_addr(listener: &async_std::net::TcpListener) -> Option<String> {
    listener.local_addr().ok().map(|addr| addr.to_string())
}

/// `async_std::net::TcpStream::local_addr`, as text where the socket gives
/// an address. Nothing is claimed of the outcome.
#[verifier::external_body]
pub(crate) fn stream_local_addr(stream: &async_std::net::TcpStream) -> Option<String> {
    stream.local_addr().ok().map(|addr| addr.to_string())
}

/// `async_std::net::TcpStream::peer_addr`, as text where the socket gives an
/// address. Nothing is claimed of the outcome.
#[verifier::external_body]
pub(crate) fn stream_peer_addr(stream: &async_std::net::TcpStream) -> Option<String> {
    stream.peer_addr().ok().map(|addr| addr.to_string())
}

/// `async_std::net::TcpStream::set_nodelay`. Nothing is claimed of the
/// outcome.
#[verifier::external_body]
pub(crate) fn set_nodelay(stream: &async_std::net::TcpStream, nodelay: bool) -> Result<
    (),
    std::io::Error,
> {
    stream.set_nodelay(nodelay)
}

/// `async_std::net::TcpStream::set_ttl`. Nothing is claimed of the outcome.
#[verifier::external_body]
pub(crate) fn set_ttl(stream: &async_std::net::TcpStream, ttl: u32) -> Result<(), std::io::Error> {
    stream.set_ttl(ttl)
}

/// `openssl::ssl::Ssl::new` on the context of the acceptor. Nothing is
/// claimed of the outcome.
#[verifier::external_body]
pub(crate) fn new_ssl(acceptor: &openssl::ssl::SslAcceptor) -> Result<
    openssl::ssl::Ssl,
    openssl::error::ErrorStack,
> {
    openssl::ssl::Ssl::new(acceptor.context())
}

/// `async_std_openssl::SslStream::new`, which does no I/O. Nothing is claimed
/// of the outcome.
#[verifier::external_body]
pub(crate) fn new_ssl_stream(ssl: openssl::ssl::Ssl, stream: async_std::net::TcpStream) -> Result<
    async_std_openssl::SslStream<async_std::net::TcpStream>,
    openssl::error::ErrorStack,
> {
    async_std_openssl::SslStream::new(ssl, stream)
}

/// `url::Url::set_scheme` on the URL that `http_types::Request::url_mut`
/// hands out, for a scheme that needs no normalising. Trusted: whether it
/// succeeds is decided by the request and the scheme alone; when it succeeds
/// the URL's scheme is the one given, when it fails the URL is as it was,
/// and the request's addresses are not touched either way.
#[verifier::external_body]
pub(crate) fn set_scheme(req: &mut tide::http::Request, scheme: &str) -> (changed: bool)
    requires
        plain_scheme(scheme@),
    ensures
        changed == takes_scheme(*old(req), scheme@),
        changed ==> request_meta(*final(req)) == (RequestMeta {
            scheme: scheme@,
            ..request_meta(*old(req))
        }),
        !changed ==> request_meta(*final(req)) == request_meta(*old(req)),
{
    req.url_mut().set_scheme(scheme).is_ok()
}

/// `http_types::Request::set_local_addr`. Trusted: the request then holds
/// the given address as its local address, and its scheme and peer address
/// are as before.
#[verifier::external_body]
pub(crate) fn set_local_addr(req: &mut tide::http::Request, addr: Option<String>)
    ensures
        request_meta(*final(req)) == (RequestMeta {
            local_addr: text_of(addr),
            ..request_meta(*old(req))
        }),
{
    req.set_local_addr(addr);
}

/// `http_types::Request::set_peer_addr`. Trusted: the request then holds the
/// given address as its peer address, and its scheme and local address are
/// as before.
#[verifier::external_body]
pub(crate) fn set_peer_addr(req: &mut tide::http::Request, addr: Option<String>)
    ensures
        request_meta(*final(req)) == (RequestMeta {
            peer_addr: text_of(addr),
            ..request_meta(*old(req))
        }),
{
    req.set_peer_addr(addr);
}

/// `tide::listener::ListenInfo::new`. Trusted: the value keeps the three
/// arguments as they are.
#[verifier::external_body]
pub(crate) fn new_listen_info(connection: String, transport: String, tls: bool) -> (info:
    tide::listener::ListenInfo)
    ensures
        listen_summary(info) == (ListenSummary {
            connection: connection@,
            transport: transport@,
            tls,
        }),
{
    tide::listener::ListenInfo::new(connection, transport, tls)
}

} // verus!
