//! The listener: its state, the steps of its startup, and its accept loop.
//!
//! A listener is configured, then bound, then accepts. Whoever drives it does
//! the loading, the binding and the waiting, and reports each outcome here;
//! the listener decides what that outcome means and what comes next.

use crate::accept::{
    accept_step, connection_event, open_run, step, AcceptAction, AcceptEvent, Phase,
    SocketOptions,
};
use crate::connection::{Connection, HandlerState};
use crate::error::{ConfigError, ListenError, LoadFailure};
use crate::outside::{listen_summary, new_listen_info, ListenSummary};
use crate::tcp_connection::{BoundSocket, TcpConnection};
use crate::text::{flag_text, number_text, push_flag, push_number};
use crate::tls_listener_builder::TlsListenerBuilder;
use crate::tls_listener_config::{borrows, TlsListenerConfig};
use vstd::prelude::*;
use vstd::string::StringExecFns;

verus! {

/// What a listener is, to its contracts.
#[verifier::reject_recursive_types(State)]
pub struct ListenerModel<State> {
    /// Where the listener stands in its life.
    pub phase: Phase,
    /// Where it takes its connections from.
    pub connection: TcpConnection,
    /// What it makes its TLS sessions from.
    pub config: TlsListenerConfig,
    /// The application that requests are dispatched to.
    pub server: Option<tide::Server<State>>,
    /// The options set on each accepted socket.
    pub options: SocketOptions,
}

/// What the parts of a running accept loop are: the socket to accept from, the
/// acceptor for the handshakes and the application to dispatch to.
pub open spec fn parts_are<State>(
    r: Result<(&async_std::net::TcpListener, &openssl::ssl::SslAcceptor, &tide::Server<State>), ListenError>,
    of: Result<(async_std::net::TcpListener, openssl::ssl::SslAcceptor, tide::Server<State>), ListenError>,
) -> bool {
    match (r, of) {
        (Ok(a), Ok(b)) => *a.0 == b.0 && *a.1 == b.1 && *a.2 == b.2,
        (Err(a), Err(b)) => a == b,
        _ => false,
    }
}

/// One thing that happens to a listener.
#[verifier::reject_recursive_types(State)]
pub enum ListenerEvent<State> {
    /// A call of `configure` with what was loaded.
    Configure(Option<Result<openssl::ssl::SslAcceptor, LoadFailure>>),
    /// A call of `bind` with the application and what binding gave.
    Bind(tide::Server<State>, Option<Result<BoundSocket, std::io::Error>>),
    /// A call of `on_accept` with an accept event.
    Accept(AcceptEvent),
}

impl<State> ListenerModel<State> {
    /// What holds of every listener: the acceptor is there once the listener
    /// is configured, and from the moment it accepts the socket is bound and
    /// an application is attached.
    pub open spec fn inv(self) -> bool {
        &&& self.phase is Binding ==> self.config is Acceptor
        &&& self.phase is Accepting || self.phase is Stopped ==> {
            &&& self.config is Acceptor
            &&& self.connection is Connected
            &&& self.server is Some
        }
    }

    /// A new listener: nothing is resolved yet.
    pub open spec fn init(
        connection: TcpConnection,
        config: TlsListenerConfig,
        options: SocketOptions,
    ) -> Self {
        ListenerModel { phase: Phase::Configuring, connection, config, server: None, options }
    }

    /// The listener after `configure`, and what the call returns.
    ///
    /// While configuring, the configuration is resolved with what was loaded:
    /// with an acceptor the listener goes on to binding, without one it has
    /// failed. A listener that is configured already hands out its acceptor
    /// and stays as it is. A stopped or failed listener stays as it is and has
    /// nothing to configure.
    pub open spec fn configured(
        self,
        loaded: Option<Result<openssl::ssl::SslAcceptor, LoadFailure>>,
    ) -> (Self, Result<openssl::ssl::SslAcceptor, ConfigError>) {
        match self.phase {
            Phase::Configuring => {
                let (config, r) = self.config.resolved(loaded);
                match r {
                    Ok(_) => (ListenerModel { phase: Phase::Binding, config, ..self }, r),
                    Err(_) => (ListenerModel { phase: Phase::Fatal, config, ..self }, r),
                }
            },
            Phase::Binding | Phase::Accepting => (self, self.config.resolved(None).1),
            Phase::Stopped | Phase::Fatal => (self, Err(ConfigError::Unconfigured)),
        }
    }

    /// The listener after `bind`, and what the call returns.
    ///
    /// While binding, the connection target is resolved with what binding
    /// gave: with a socket the application is attached and the listener
    /// accepts, without one it has failed. A listener that accepts already
    /// takes the new application and keeps its socket. Binding before the
    /// configuration is resolved fails the listener; a stopped or failed
    /// listener stays as it is.
    pub open spec fn bound(
        self,
        server: tide::Server<State>,
        bound: Option<Result<BoundSocket, std::io::Error>>,
    ) -> (Self, Result<(), ListenError>) {
        match self.phase {
            Phase::Binding => {
                let (connection, r) = self.connection.resolved(bound);
                match r {
                    Ok(_) => (
                        ListenerModel {
                            phase: Phase::Accepting,
                            connection,
                            server: Some(server),
                            ..self
                        },
                        Ok(()),
                    ),
                    Err(e) => (ListenerModel { phase: Phase::Fatal, connection, ..self }, Err(e)),
                }
            },
            Phase::Accepting => (ListenerModel { server: Some(server), ..self }, Ok(())),
            Phase::Configuring => (
                ListenerModel { phase: Phase::Fatal, ..self },
                Err(ListenError::NoAcceptor),
            ),
            Phase::Stopped | Phase::Fatal => (self, Err(ListenError::Halted)),
        }
    }

    /// The listener after an accept event, and what the loop does next.
    pub open spec fn accepted(self, event: AcceptEvent) -> (Self, AcceptAction) {
        let (phase, action) = accept_step(self.phase, event);
        (ListenerModel { phase, ..self }, action)
    }

    /// What the accept loop runs on, or why it cannot run.
    ///
    /// An accepting listener has all three parts. A stopped or failed one is
    /// halted. Before that, the first part that is missing is named: the
    /// bound socket, then the acceptor, then the application.
    pub open spec fn accept_parts(self) -> Result<
        (async_std::net::TcpListener, openssl::ssl::SslAcceptor, tide::Server<State>),
        ListenError,
    > {
        if self.phase.terminal() {
            Err(ListenError::Halted)
        } else if !(self.connection is Connected) {
            Err(ListenError::NotBound)
        } else if !(self.config is Acceptor) {
            Err(ListenError::NoAcceptor)
        } else if !(self.phase is Accepting && self.server is Some) {
            Err(ListenError::NoServer)
        } else {
            Ok((self.connection->Connected_0.listener, self.config->Acceptor_0, self.server->0))
        }
    }

    /// The listener after one event.
    pub open spec fn after(self, event: ListenerEvent<State>) -> Self {
        match event {
            ListenerEvent::Configure(loaded) => self.configured(loaded).0,
            ListenerEvent::Bind(server, bound) => self.bound(server, bound).0,
            ListenerEvent::Accept(event) => self.accepted(event).0,
        }
    }

    /// The listener after a run of events.
    pub open spec fn after_all(self, events: Seq<ListenerEvent<State>>) -> Self
        decreases events.len(),
    {
        if events.len() == 0 {
            self
        } else {
            self.after_all(events.drop_last()).after(events.last())
        }
    }

    /// What the listener reports of itself.
    pub open spec fn summary(self) -> ListenSummary {
        ListenSummary { connection: self.connection.display_text(), transport: "tcp"@, tls: true }
    }

    /// The listener in the form used for debugging.
    pub open spec fn debug_text(self) -> Seq<char> {
        "TlsListener { connection: "@ + self.connection.debug_text() + ", acceptor: "@ + (
        if self.config is Acceptor {
            "\"Some(SslAcceptor)\""@
        } else {
            "\"None\""@
        }) + ", server: "@ + (if self.server is Some {
            "\"Some(Server<State>)\""@
        } else {
            "\"None\""@
        }) + ", tcp_ttl: "@ + number_text(self.options.ttl) + ", tcp_nodelay: "@ + flag_text(
            self.options.nodelay,
        ) + " }"@
    }
}

/// The primary type of this crate: a TLS listener for an application of
/// state `State`.
#[verifier::reject_recursive_types(State)]
pub struct TlsListener<State> {
    connection: TcpConnection,
    config: TlsListenerConfig,
    server: Option<tide::Server<State>>,
    tcp_nodelay: Option<bool>,
    tcp_ttl: Option<u32>,
    phase: Phase,
}

impl<State> View for TlsListener<State> {
    type V = ListenerModel<State>;

    closed spec fn view(&self) -> ListenerModel<State> {
        ListenerModel {
            phase: self.phase,
            connection: self.connection,
            config: self.config,
            server: self.server,
            options: SocketOptions { nodelay: self.tcp_nodelay, ttl: self.tcp_ttl },
        }
    }
}

impl<State> TlsListener<State> {
    #[verifier::type_invariant]
    spec fn well_formed(self) -> bool {
        self@.inv()
    }

    /// A listener for the given connection target and TLS configuration.
    /// Nothing is resolved yet.
    pub fn new(
        connection: TcpConnection,
        config: TlsListenerConfig,
        tcp_nodelay: Option<bool>,
        tcp_ttl: Option<u32>,
    ) -> (r: Self)
        ensures
            r@ == ListenerModel::<State>::init(
                connection,
                config,
                SocketOptions { nodelay: tcp_nodelay, ttl: tcp_ttl },
            ),
    {
        TlsListener {
            connection,
            config,
            server: None,
            tcp_nodelay,
            tcp_ttl,
            phase: Phase::Configuring,
        }
    }

    /// The entry point to make a listener: a builder with nothing set.
    pub fn build() -> (r: TlsListenerBuilder<State>)
        ensures
            r@ == crate::tls_listener_builder::BuilderModel::empty(),
    {
        TlsListenerBuilder::new()
    }

    /// Where the listener stands in its life.
    pub fn phase(&self) -> (r: Phase)
        ensures
            r == self@.phase,
            self@.inv(),
    {
        proof {
            use_type_invariant(self);
        }
        self.phase
    }

    /// The options to set on each accepted socket before it is reported as
    /// incoming.
    pub fn socket_options(&self) -> (r: SocketOptions)
        ensures
            r == self@.options,
    {
        SocketOptions { nodelay: self.tcp_nodelay, ttl: self.tcp_ttl }
    }

    /// The bound socket, once there is one.
    pub fn tcp(&self) -> (r: Option<&async_std::net::TcpListener>)
        ensures
            r is Some <==> self@.connection is Connected,
            r matches Some(listener) ==> *listener == self@.connection->Connected_0.listener,
    {
        self.connection.listener()
    }

    /// The acceptor, once there is one.
    pub fn acceptor(&self) -> (r: Option<&openssl::ssl::SslAcceptor>)
        ensures
            r is Some <==> self@.config is Acceptor,
            r matches Some(acceptor) ==> *acceptor == self@.config->Acceptor_0,
    {
        self.config.acceptor()
    }

    /// The application, once one is attached.
    pub fn server(&self) -> (r: Option<&tide::Server<State>>)
        ensures
            r is Some <==> self@.server is Some,
            r matches Some(server) ==> *server == self@.server->0,
    {
        self.server.as_ref()
    }

    /// The certificate and key files to load before `configure` is called:
    /// those of a listener that is configuring from paths.
    pub fn pending_files(&self) -> (r: Option<(&String, &String)>)
        ensures
            r is Some <==> self@.phase is Configuring && self@.config is Paths,
            r matches Some(paths) ==> *paths.0 == self@.config->cert && *paths.1
                == self@.config->key,
    {
        match self.phase {
            Phase::Configuring => self.config.pending_files(),
            _ => None,
        }
    }

    /// The addresses to bind before `bind` is called: those of a listener
    /// that is binding and has no socket yet.
    pub fn pending_addrs(&self) -> (r: Option<&Vec<String>>)
        ensures
            r is Some <==> self@.phase is Binding && self@.connection is Addrs,
            r matches Some(addrs) ==> *addrs == self@.connection->Addrs_0,
    {
        match self.phase {
            Phase::Binding => self.connection.pending_addrs(),
            _ => None,
        }
    }

    /// Resolves the TLS configuration with what was loaded from the pending
    /// files (`None` where nothing was loaded) and returns the acceptor.
    pub fn configure(
        &mut self,
        loaded: Option<Result<openssl::ssl::SslAcceptor, LoadFailure>>,
    ) -> (r: Result<&openssl::ssl::SslAcceptor, ConfigError>)
        ensures
            final(self)@ == old(self)@.configured(loaded).0,
            borrows(r, old(self)@.configured(loaded).1),
    {
        proof {
            use_type_invariant(&*self);
        }
        match self.phase {
            Phase::Configuring => {
                let failed = match self.config.resolve(loaded) {
                    Ok(_) => None,
                    Err(e) => Some(e),
                };
                match failed {
                    None => {
                        self.phase = Phase::Binding;
                    },
                    Some(e) => {
                        self.phase = Phase::Fatal;
                        return Err(e);
                    },
                }
            },
            Phase::Binding | Phase::Accepting => {},
            Phase::Stopped | Phase::Fatal => {
                return Err(ConfigError::Unconfigured);
            },
        }
        match &self.config {
            TlsListenerConfig::Acceptor(acceptor) => Ok(acceptor),
            _ => Err(ConfigError::Unconfigured),
        }
    }

    /// Resolves the connection target with what binding the pending
    /// addresses gave (`None` where no bind was attempted) and attaches the
    /// application.
    pub fn bind(
        &mut self,
        server: tide::Server<State>,
        bound: Option<Result<BoundSocket, std::io::Error>>,
    ) -> (r: Result<(), ListenError>)
        ensures
            final(self)@ == old(self)@.bound(server, bound).0,
            r == old(self)@.bound(server, bound).1,
    {
        proof {
            use_type_invariant(&*self);
        }
        match self.phase {
            Phase::Binding => {
                let failed = match self.connection.resolve(bound) {
                    Ok(_) => None,
                    Err(e) => Some(e),
                };
                match failed {
                    None => {
                        self.server = Some(server);
                        self.phase = Phase::Accepting;
                        Ok(())
                    },
                    Some(e) => {
                        self.phase = Phase::Fatal;
                        Err(e)
                    },
                }
            },
            Phase::Accepting => {
                self.server = Some(server);
                Ok(())
            },
            Phase::Configuring => {
                self.phase = Phase::Fatal;
                Err(ListenError::NoAcceptor)
            },
            Phase::Stopped | Phase::Fatal => Err(ListenError::Halted),
        }
    }

    /// The parts that the accept loop runs on, or why it cannot run.
    pub fn accept_parts(&self) -> (r: Result<
        (&async_std::net::TcpListener, &openssl::ssl::SslAcceptor, &tide::Server<State>),
        ListenError,
    >)
        ensures
            parts_are(r, self@.accept_parts()),
            r is Ok <==> self@.phase is Accepting,
    {
        proof {
            use_type_invariant(self);
        }
        if self.phase.is_terminal() {
            return Err(ListenError::Halted);
        }
        let listener = match self.connection.listener() {
            Some(listener) => listener,
            None => {
                return Err(ListenError::NotBound);
            },
        };
        let acceptor = match self.config.acceptor() {
            Some(acceptor) => acceptor,
            None => {
                return Err(ListenError::NoAcceptor);
            },
        };
        match (self.phase, &self.server) {
            (Phase::Accepting, Some(server)) => Ok((listener, acceptor, server)),
            _ => Err(ListenError::NoServer),
        }
    }

    /// Takes an accept event and says what the accept loop does next.
    pub fn on_accept(&mut self, event: AcceptEvent) -> (r: AcceptAction)
        ensures
            final(self)@ == old(self)@.accepted(event).0,
            r == old(self)@.accepted(event).1,
    {
        proof {
            use_type_invariant(&*self);
        }
        let (phase, action) = step(self.phase, event);
        self.phase = phase;
        action
    }

    /// Takes a connection that was just accepted: notes the addresses of its
    /// socket, sets the options of the listener on it, and says whether it
    /// is to be served.
    ///
    /// An accepting listener returns the connection, to be handed to a new
    /// handler task. Where an option cannot be set it returns the error of
    /// the option, to be reported, and the connection is given up. Either
    /// way it goes on accepting. With no option to set the connection is
    /// always returned. A listener that is not accepting touches nothing of
    /// the socket and returns why its accept loop cannot run.
    pub fn on_connection(&mut self, stream: &async_std::net::TcpStream) -> (r: Result<
        Connection,
        ListenError,
    >)
        ensures
            old(self)@.phase is Accepting ==> final(self)@ == old(self)@.accepted(
                connection_event(r is Ok),
            ).0,
            old(self)@.phase is Accepting ==> final(self)@ == old(self)@,
            !(old(self)@.phase is Accepting) ==> final(self)@ == old(self)@.accepted(
                AcceptEvent::Incoming,
            ).0,
            match r {
                Ok(connection) => {
                    &&& old(self)@.phase is Accepting
                    &&& connection.state == HandlerState::Created
                },
                Err(ListenError::SocketOption(_)) => {
                    &&& old(self)@.phase is Accepting
                    &&& !old(self)@.options.none()
                },
                Err(e) => {
                    &&& !(old(self)@.phase is Accepting)
                    &&& old(self)@.accept_parts() == Err::<
                        (async_std::net::TcpListener, openssl::ssl::SslAcceptor, tide::Server<State>),
                        ListenError,
                    >(e)
                },
            },
    {
        proof {
            use_type_invariant(&*self);
        }
        match self.phase {
            Phase::Accepting => {
                let connection = Connection::accepted(stream);
                match self.socket_options().apply(stream) {
                    Ok(()) => {
                        let _ = self.on_accept(AcceptEvent::Incoming);
                        Ok(connection)
                    },
                    Err(e) => {
                        let _ = self.on_accept(AcceptEvent::OptionsRejected);
                        Err(ListenError::SocketOption(e))
                    },
                }
            },
            _ => {
                let refused = match self.accept_parts() {
                    Ok(_) => ListenError::Halted,
                    Err(e) => e,
                };
                let _ = self.on_accept(AcceptEvent::Incoming);
                Err(refused)
            },
        }
    }

    /// What the listener reports of itself: one entry, with the connection
    /// target as it shows itself, the transport `tcp`, and encrypted.
    pub fn info(&self) -> (r: Vec<tide::listener::ListenInfo>)
        ensures
            r@.len() == 1,
            listen_summary(r@[0]) == self@.summary(),
    {
        let mut infos = Vec::new();
        infos.push(new_listen_info(self.connection.display_string(), String::from_str("tcp"), true));
        infos
    }

    /// The text that the listener shows itself as: that of its connection
    /// target.
    pub fn display_string(&self) -> (r: String)
        ensures
            r@ == self@.connection.display_text(),
    {
        self.connection.display_string()
    }

    /// The listener in the form used for debugging.
    pub fn debug_string(&self) -> (r: String)
        ensures
            r@ == self@.debug_text(),
    {
        let mut out = String::from_str("TlsListener { connection: ");
        self.connection.push_debug(&mut out);
        out.append(", acceptor: ");
        match self.config {
            TlsListenerConfig::Acceptor(_) => out.append("\"Some(SslAcceptor)\""),
            _ => out.append("\"None\""),
        }
        out.append(", server: ");
        match self.server {
            Some(_) => out.append("\"Some(Server<State>)\""),
            None => out.append("\"None\""),
        }
        out.append(", tcp_ttl: ");
        push_number(&mut out, self.tcp_ttl);
        out.append(", tcp_nodelay: ");
        push_flag(&mut out, self.tcp_nodelay);
        out.append(" }");
        out
    }
}

/// Every step keeps what holds of every listener.
pub proof fn lemma_step_keeps_inv<State>(m: ListenerModel<State>, event: ListenerEvent<State>)
    requires
        m.inv(),
    ensures
        m.after(event).inv(),
{
}

/// What is resolved stays resolved: no step takes the acceptor out of a
/// configuration or replaces it, and no step unbinds a bound socket or
/// replaces it.
pub proof fn lemma_resolved_is_kept<State>(m: ListenerModel<State>, event: ListenerEvent<State>)
    ensures
        m.config is Acceptor ==> m.after(event).config == m.config,
        m.connection is Connected ==> m.after(event).connection == m.connection,
        m.after(event).options == m.options,
{
}

/// A listener never goes back: whatever happens to it, it stays in its phase
/// or moves on to a later one, and it does not move between the two terminal
/// phases.
pub proof fn lemma_phase_never_goes_back<State>(
    m: ListenerModel<State>,
    event: ListenerEvent<State>,
)
    ensures
        m.after(event).phase.rank() >= m.phase.rank(),
        m.phase.terminal() ==> m.after(event).phase == m.phase,
        m.after(event).phase is Accepting ==> m.phase is Binding || m.phase is Accepting,
        m.after(event).phase is Binding ==> m.phase is Configuring || m.phase is Binding,
        m.after(event).phase is Stopped ==> m.phase is Accepting || m.phase is Stopped,
{
}

/// A run of accept events, as events of a listener.
pub open spec fn accept_events<State>(events: Seq<AcceptEvent>) -> Seq<ListenerEvent<State>> {
    events.map_values(|event: AcceptEvent| ListenerEvent::Accept(event))
}

/// Nothing that the accept loop meets changes an accepting listener, but
/// the end of the incoming stream: after any run of arrivals, failures and
/// rejected options it holds the same socket, acceptor, application and
/// options, it is accepting, and its accept loop can run.
pub proof fn lemma_open_run_keeps_listener<State>(
    m: ListenerModel<State>,
    events: Seq<AcceptEvent>,
)
    requires
        m.inv(),
        m.phase is Accepting,
        open_run(events),
    ensures
        m.after_all(accept_events(events)) == m,
        m.after_all(accept_events(events)).accept_parts() is Ok,
    decreases events.len(),
{
    if events.len() > 0 {
        lemma_open_run_keeps_listener(m, events.drop_last());
        assert(accept_events::<State>(events).drop_last() == accept_events::<State>(
            events.drop_last(),
        ));
    }
}

/// Nothing leads out of a terminal phase: a stopped or failed listener is
/// the same after any run of events, and its accept loop cannot run.
pub proof fn lemma_terminal_is_final<State>(
    m: ListenerModel<State>,
    events: Seq<ListenerEvent<State>>,
)
    requires
        m.phase.terminal(),
    ensures
        m.after_all(events) == m,
        m.after_all(events).accept_parts() == Err::<
            (async_std::net::TcpListener, openssl::ssl::SslAcceptor, tide::Server<State>),
            ListenError,
        >(ListenError::Halted),
    decreases events.len(),
{
    if events.len() > 0 {
        lemma_terminal_is_final(m, events.drop_last());
    }
}

/// Configuring is idempotent: once `configure` has given an acceptor, every
/// further call gives the same acceptor and leaves the listener as it is,
/// whatever is handed to it.
pub proof fn lemma_configure_is_idempotent<State>(
    m: ListenerModel<State>,
    first: Option<Result<openssl::ssl::SslAcceptor, LoadFailure>>,
    second: Option<Result<openssl::ssl::SslAcceptor, LoadFailure>>,
)
    requires
        m.configured(first).1 is Ok,
    ensures
        m.configured(first).0.configured(second) == m.configured(first),
{
}

/// A configuration that does not resolve fails the listener for good: the
/// error is the one that says why, and after any run of further events the
/// listener is still failed and its accept loop cannot run. A certificate
/// file that does not hold a certificate chain is reported as
/// `InvalidCertificate`, a key file that does not hold a key as `InvalidKey`,
/// files that cannot be opened as `Io`.
pub proof fn lemma_failed_configuration_never_accepts<State>(
    m: ListenerModel<State>,
    failure: LoadFailure,
    events: Seq<ListenerEvent<State>>,
)
    requires
        m.phase is Configuring,
        m.config is Paths,
    ensures
        m.configured(Some(Err(failure))).1 == Err::<openssl::ssl::SslAcceptor, ConfigError>(
            failure.config_error(),
        ),
        failure is Certificate ==> failure.config_error() == ConfigError::InvalidCertificate,
        failure is Key ==> failure.config_error() == ConfigError::InvalidKey,
        failure is Unreadable ==> failure.config_error() == ConfigError::Io,
        m.configured(Some(Err(failure))).0.after_all(events).phase == Phase::Fatal,
        m.configured(Some(Err(failure))).0.after_all(events).accept_parts() is Err,
{
    lemma_terminal_is_final(m.configured(Some(Err(failure))).0, events);
}

/// A listener without a configuration fails for good when it is configured,
/// with `Unconfigured`.
pub proof fn lemma_unconfigured_never_accepts<State>(
    m: ListenerModel<State>,
    loaded: Option<Result<openssl::ssl::SslAcceptor, LoadFailure>>,
    events: Seq<ListenerEvent<State>>,
)
    requires
        m.phase is Configuring,
        m.config is Unconfigured,
    ensures
        m.configured(loaded).1 == Err::<openssl::ssl::SslAcceptor, ConfigError>(
            ConfigError::Unconfigured,
        ),
        m.configured(loaded).0.after_all(events).phase == Phase::Fatal,
{
    lemma_terminal_is_final(m.configured(loaded).0, events);
}

/// A bind that fails, as it does for an address in use, fails the listener
/// for good: the error of the bind is handed on as it is, no application is
/// attached, and after any run of further events the listener is still
/// failed and never accepting.
pub proof fn lemma_failed_bind_never_accepts<State>(
    m: ListenerModel<State>,
    server: tide::Server<State>,
    e: std::io::Error,
    events: Seq<ListenerEvent<State>>,
)
    requires
        m.phase is Binding,
        m.connection is Addrs,
    ensures
        m.bound(server, Some(Err(e))).1 == Err::<(), ListenError>(ListenError::Bind(e)),
        m.bound(server, Some(Err(e))).0.connection == m.connection,
        m.bound(server, Some(Err(e))).0.server == m.server,
        m.bound(server, Some(Err(e))).0.after_all(events).phase == Phase::Fatal,
        m.bound(server, Some(Err(e))).0.after_all(events).accept_parts() is Err,
{
    lemma_terminal_is_final(m.bound(server, Some(Err(e))).0, events);
}

/// A listener accepts only after it was configured and bound, in this
/// order: whatever run of events led to it, an accepting listener holds its
/// acceptor, its bound socket and its application.
pub proof fn lemma_accepting_has_all_parts<State>(
    connection: TcpConnection,
    config: TlsListenerConfig,
    options: SocketOptions,
    events: Seq<ListenerEvent<State>>,
)
    ensures
        ListenerModel::<State>::init(connection, config, options).after_all(events).inv(),
        ListenerModel::<State>::init(connection, config, options).after_all(events).phase
            is Accepting ==> ListenerModel::<State>::init(connection, config, options).after_all(
            events,
        ).accept_parts() is Ok,
    decreases events.len(),
{
    if events.len() > 0 {
        lemma_accepting_has_all_parts::<State>(connection, config, options, events.drop_last());
        lemma_step_keeps_inv(
            ListenerModel::<State>::init(connection, config, options).after_all(events.drop_last()),
            events.last(),
        );
    }
}

} // verus!
