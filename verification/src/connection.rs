//! One accepted connection: the steps of its handler, and what the handler
//! writes into each request before the application sees it.
//!
//! The handler task makes the TLS session, runs the handshake and the HTTP
//! codec; after each of these it reports a [`HandlerEvent`] and carries out
//! the [`HandlerAction`] it gets back. A connection knows nothing of the
//! listener or of other connections.

use crate::outside::{
    new_ssl, new_ssl_stream, request_meta, set_local_addr, set_peer_addr, set_scheme,
    stream_local_addr, stream_peer_addr, takes_scheme, text_of, RequestMeta,
};
use vstd::prelude::*;

verus! {

/// How far the handler of a connection has come.
#[derive(Clone, Copy, Debug, PartialEq, Eq, Structural)]
pub enum HandlerState {
    /// The connection was accepted; there is no TLS session yet.
    Created,
    /// The TLS session is made and the handshake is running.
    Handshaking,
    /// The handshake is done and the HTTP codec is running.
    Serving,
    /// The handler is done with the connection.
    Closed,
}

/// What the work of a handler ended with.
#[derive(Clone, Copy, Debug, PartialEq, Eq, Structural)]
pub enum HandlerEvent {
    /// The TLS session was made over the socket.
    SessionReady,
    /// The TLS session could not be made.
    SessionFailed,
    /// The handshake succeeded.
    HandshakeDone,
    /// The handshake failed.
    HandshakeFailed,
    /// The HTTP codec has finished with the connection.
    CodecDone,
    /// The HTTP codec gave up on the connection.
    CodecFailed,
}

/// The step at which a connection was given up.
#[derive(Clone, Copy, Debug, PartialEq, Eq, Structural)]
pub enum Failure {
    /// Making the TLS session.
    Session,
    /// The handshake.
    Handshake,
    /// The HTTP codec.
    Codec,
}

/// What the handler does next.
#[derive(Clone, Copy, Debug, PartialEq, Eq, Structural)]
pub enum HandlerAction {
    /// Run the handshake.
    Handshake,
    /// Run the HTTP codec over the encrypted stream.
    Serve,
    /// End the task.
    Close,
    /// Report the failure and end the task; the connection is not tried again.
    Abandon(Failure),
}

/// The state after a handler event, and what the handler does next.
///
/// A session that is made is followed by the handshake, a handshake that
/// succeeds by the codec, and the codec by the end of the task. A failure at
/// any of the three gives the connection up. An event that does not belong to
/// the state ends the task.
pub open spec fn handler_step(state: HandlerState, event: HandlerEvent) -> (
    HandlerState,
    HandlerAction,
) {
    match (state, event) {
        (HandlerState::Created, HandlerEvent::SessionReady) => (
            HandlerState::Handshaking,
            HandlerAction::Handshake,
        ),
        (HandlerState::Created, HandlerEvent::SessionFailed) => (
            HandlerState::Closed,
            HandlerAction::Abandon(Failure::Session),
        ),
        (HandlerState::Handshaking, HandlerEvent::HandshakeDone) => (
            HandlerState::Serving,
            HandlerAction::Serve,
        ),
        (HandlerState::Handshaking, HandlerEvent::HandshakeFailed) => (
            HandlerState::Closed,
            HandlerAction::Abandon(Failure::Handshake),
        ),
        (HandlerState::Serving, HandlerEvent::CodecDone) => (
            HandlerState::Closed,
            HandlerAction::Close,
        ),
        (HandlerState::Serving, HandlerEvent::CodecFailed) => (
            HandlerState::Closed,
            HandlerAction::Abandon(Failure::Codec),
        ),
        _ => (HandlerState::Closed, HandlerAction::Close),
    }
}

/// The event for the attempt to make a TLS session.
pub open spec fn session_event(made: bool) -> HandlerEvent {
    if made {
        HandlerEvent::SessionReady
    } else {
        HandlerEvent::SessionFailed
    }
}

/// The state after a run of handler events.
pub open spec fn state_after(state: HandlerState, events: Seq<HandlerEvent>) -> HandlerState
    decreases events.len(),
{
    if events.len() == 0 {
        state
    } else {
        handler_step(state_after(state, events.drop_last()), events.last()).0
    }
}

/// What a request holds after a connection has annotated it: the addresses
/// of the connection, and the scheme `https` where it could be set.
pub open spec fn annotated(
    before: RequestMeta,
    local_addr: Option<Seq<char>>,
    peer_addr: Option<Seq<char>>,
    scheme_set: bool,
) -> RequestMeta {
    RequestMeta {
        scheme: if scheme_set {
            "https"@
        } else {
            before.scheme
        },
        local_addr,
        peer_addr,
    }
}

impl Failure {
    /// The text under which this failure is reported.
    pub open spec fn text(self) -> Seq<char> {
        match self {
            Failure::Session => "ssl error"@,
            Failure::Handshake => "tls error"@,
            Failure::Codec => "async-h1 error"@,
        }
    }

    /// The text under which this failure is reported.
    pub fn message(&self) -> (r: &'static str)
        ensures
            r@ == self.text(),
    {
        match self {
            Failure::Session => "ssl error",
            Failure::Handshake => "tls error",
            Failure::Codec => "async-h1 error",
        }
    }
}

/// One accepted connection.
#[derive(Debug)]
pub struct Connection {
    /// The local address of the socket, taken right after the accept.
    pub local_addr: Option<String>,
    /// The address of the peer, taken right after the accept.
    pub peer_addr: Option<String>,
    /// How far the handler has come.
    pub state: HandlerState,
}

impl Connection {
    /// A connection that was just accepted, with the addresses of its socket.
    pub fn new(local_addr: Option<String>, peer_addr: Option<String>) -> (r: Connection)
        ensures
            r == (Connection { local_addr, peer_addr, state: HandlerState::Created }),
    {
        Connection { local_addr, peer_addr, state: HandlerState::Created }
    }

    /// The connection of a socket that was just accepted, with the addresses
    /// that the socket gives at this moment: later it may give none.
    pub fn accepted(stream: &async_std::net::TcpStream) -> (r: Connection)
        ensures
            r.state == HandlerState::Created,
    {
        let local_addr = stream_local_addr(stream);
        let peer_addr = stream_peer_addr(stream);
        Connection { local_addr, peer_addr, state: HandlerState::Created }
    }

    /// Makes the TLS session over the accepted socket, for the acceptor's
    /// context, and takes the outcome as the first event of the handler.
    /// Returns what the handler does next, and the session or why there is
    /// none. No byte is sent or received here.
    pub fn open(
        &mut self,
        acceptor: &openssl::ssl::SslAcceptor,
        stream: async_std::net::TcpStream,
    ) -> (r: (
        HandlerAction,
        Result<async_std_openssl::SslStream<async_std::net::TcpStream>, openssl::error::ErrorStack>,
    ))
        ensures
            final(self).state == handler_step(old(self).state, session_event(r.1 is Ok)).0,
            r.0 == handler_step(old(self).state, session_event(r.1 is Ok)).1,
            final(self).local_addr == old(self).local_addr,
            final(self).peer_addr == old(self).peer_addr,
    {
        let session = match new_ssl(acceptor) {
            Ok(ssl) => new_ssl_stream(ssl, stream),
            Err(e) => Err(e),
        };
        let event = match &session {
            Ok(_) => HandlerEvent::SessionReady,
            Err(_) => HandlerEvent::SessionFailed,
        };
        let action = self.on_event(event);
        (action, session)
    }

    /// Takes a handler event and says what the handler does next.
    pub fn on_event(&mut self, event: HandlerEvent) -> (r: HandlerAction)
        ensures
            final(self).state == handler_step(old(self).state, event).0,
            r == handler_step(old(self).state, event).1,
            final(self).local_addr == old(self).local_addr,
            final(self).peer_addr == old(self).peer_addr,
    {
        let (state, action) = match (self.state, event) {
            (HandlerState::Created, HandlerEvent::SessionReady) => (
                HandlerState::Handshaking,
                HandlerAction::Handshake,
            ),
            (HandlerState::Created, HandlerEvent::SessionFailed) => (
                HandlerState::Closed,
                HandlerAction::Abandon(Failure::Session),
            ),
            (HandlerState::Handshaking, HandlerEvent::HandshakeDone) => (
                HandlerState::Serving,
                HandlerAction::Serve,
            ),
            (HandlerState::Handshaking, HandlerEvent::HandshakeFailed) => (
                HandlerState::Closed,
                HandlerAction::Abandon(Failure::Handshake),
            ),
            (HandlerState::Serving, HandlerEvent::CodecDone) => (
                HandlerState::Closed,
                HandlerAction::Close,
            ),
            (HandlerState::Serving, HandlerEvent::CodecFailed) => (
                HandlerState::Closed,
                HandlerAction::Abandon(Failure::Codec),
            ),
            _ => (HandlerState::Closed, HandlerAction::Close),
        };
        self.state = state;
        action
    }

    /// Writes what is known of the connection into a request that arrived
    /// over it: the scheme `https` and the two addresses. Returns whether the
    /// scheme was set, which it is exactly where the URL of the request takes
    /// it; where it does not, the request keeps the scheme it had and is
    /// annotated all the same.
    pub fn annotate(&self, req: &mut tide::http::Request) -> (scheme_set: bool)
        ensures
            scheme_set == takes_scheme(*old(req), "https"@),
            request_meta(*final(req)) == annotated(
                request_meta(*old(req)),
                text_of(self.local_addr),
                text_of(self.peer_addr),
                scheme_set,
            ),
    {
        proof {
            reveal_strlit("https");
        }
        let scheme_set = set_scheme(req, "https");
        set_local_addr(req, self.local_addr.clone());
        set_peer_addr(req, self.peer_addr.clone());
        scheme_set
    }
}

/// A closed handler stays closed: whatever is reported to it afterwards, the
/// connection is never handshaken or served again.
pub proof fn lemma_closed_is_final(events: Seq<HandlerEvent>)
    ensures
        state_after(HandlerState::Closed, events) == HandlerState::Closed,
    decreases events.len(),
{
    if events.len() > 0 {
        lemma_closed_is_final(events.drop_last());
    }
}

/// A failure ends the handler at once, at whichever step it comes, and is
/// reported as the failure of that step.
pub proof fn lemma_failure_abandons(state: HandlerState, event: HandlerEvent)
    requires
        event is SessionFailed || event is HandshakeFailed || event is CodecFailed,
    ensures
        handler_step(state, event).0 == HandlerState::Closed,
        !(handler_step(state, event).1 is Handshake),
        !(handler_step(state, event).1 is Serve),
{
}

/// The codec runs only after a handshake that succeeded.
pub proof fn lemma_serves_only_after_handshake(state: HandlerState, event: HandlerEvent)
    ensures
        handler_step(state, event).1 is Serve <==> state is Handshaking && event is HandshakeDone,
        handler_step(state, event).0 is Serving <==> state is Handshaking && event
            is HandshakeDone,
{
}

} // verus!
