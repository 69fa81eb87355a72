//! The connection target of a listener: addresses that are still to be bound,
//! or the socket that was bound to one of them.

use crate::error::ListenError;
use crate::outside::listener_local_addr;
use crate::text::{joined, push_joined};
use crate::tls_listener_config::borrows;
use vstd::prelude::*;
use vstd::string::StringExecFns;

verus! {

/// A listening socket with the address it was found to listen on.
#[derive(Debug)]
pub struct BoundSocket {
    /// The socket.
    pub listener: async_std::net::TcpListener,
    /// The local address of the socket, taken when it was bound, where the
    /// socket gave one.
    pub local_addr: Option<String>,
}

/// Where a listener takes its connections from.
#[derive(Debug)]
pub enum TcpConnection {
    /// Address specifications, `host:port`, to be tried in this order.
    Addrs(Vec<String>),
    /// The bound socket.
    Connected(BoundSocket),
}

impl BoundSocket {
    /// The local address as text, `[unknown]` where there is none.
    pub open spec fn address_text(self) -> Seq<char> {
        match self.local_addr {
            Some(addr) => addr@,
            None => "[unknown]"@,
        }
    }

    /// A bound socket, with the local address that it gives at this moment.
    pub fn new(listener: async_std::net::TcpListener) -> (r: BoundSocket)
        ensures
            r.listener == listener,
    {
        let local_addr = listener_local_addr(&listener);
        BoundSocket { listener, local_addr }
    }

    /// Appends the local address to `out`.
    pub fn push_address(&self, out: &mut String)
        ensures
            final(out)@ == old(out)@ + self.address_text(),
    {
        match &self.local_addr {
            Some(addr) => out.append(addr.as_str()),
            None => out.append("[unknown]"),
        }
    }
}

impl TcpConnection {
    /// The connection target after an attempt to resolve it, and what the
    /// attempt gives: the listening socket, or why there is none.
    ///
    /// A socket that is already bound stays, whatever the attempt brought.
    /// Pending addresses are replaced by the socket that was bound to them;
    /// when binding failed they stay and the error of the bind is handed on;
    /// when no bind was attempted there is no bound socket.
    pub open spec fn resolved(self, bound: Option<Result<BoundSocket, std::io::Error>>) -> (
        TcpConnection,
        Result<async_std::net::TcpListener, ListenError>,
    ) {
        match self {
            TcpConnection::Connected(socket) => (self, Ok(socket.listener)),
            TcpConnection::Addrs(_) => match bound {
                Some(Ok(socket)) => (TcpConnection::Connected(socket), Ok(socket.listener)),
                Some(Err(e)) => (self, Err(ListenError::Bind(e))),
                None => (self, Err(ListenError::NotBound)),
            },
        }
    }

    /// What the connection target shows itself as: the URL of each pending
    /// address, separated by a comma and a space, or the URL of the bound
    /// socket's local address.
    pub open spec fn display_text(self) -> Seq<char> {
        match self {
            TcpConnection::Addrs(addrs) => joined(addrs@, "https://"@, ", "@),
            TcpConnection::Connected(socket) => "https://"@ + socket.address_text(),
        }
    }

    /// The connection target in the form used for debugging.
    pub open spec fn debug_text(self) -> Seq<char> {
        match self {
            TcpConnection::Addrs(addrs) => "Addrs(["@ + joined(addrs@, ""@, ", "@) + "])"@,
            TcpConnection::Connected(socket) => "Connected("@ + socket.address_text() + ")"@,
        }
    }

    /// The addresses that are still to be bound.
    pub fn pending_addrs(&self) -> (r: Option<&Vec<String>>)
        ensures
            r is Some <==> self is Addrs,
            r matches Some(addrs) ==> *addrs == self->Addrs_0,
    {
        match self {
            TcpConnection::Addrs(addrs) => Some(addrs),
            _ => None,
        }
    }

    /// The bound socket, once there is one.
    pub fn listener(&self) -> (r: Option<&async_std::net::TcpListener>)
        ensures
            r is Some <==> self is Connected,
            r matches Some(listener) ==> *listener == self->Connected_0.listener,
    {
        match self {
            TcpConnection::Connected(socket) => Some(&socket.listener),
            _ => None,
        }
    }

    /// Resolves the connection target into a bound socket.
    ///
    /// `bound` is what binding the pending addresses gave, or `None` where no
    /// bind was attempted. The first success replaces the addresses by the
    /// socket; from then on every call returns that socket and changes
    /// nothing. A failed bind is not tried again here.
    pub fn resolve(&mut self, bound: Option<Result<BoundSocket, std::io::Error>>) -> (r: Result<
        &async_std::net::TcpListener,
        ListenError,
    >)
        ensures
            *final(self) == old(self).resolved(bound).0,
            borrows(r, old(self).resolved(bound).1),
        no_unwind
    {
        if let TcpConnection::Addrs(_) = self {
            match bound {
                Some(Ok(socket)) => {
                    *self = TcpConnection::Connected(socket);
                },
                Some(Err(e)) => {
                    return Err(ListenError::Bind(e));
                },
                None => {
                    return Err(ListenError::NotBound);
                },
            }
        }
        match self {
            TcpConnection::Connected(socket) => Ok(&socket.listener),
            _ => Err(ListenError::NotBound),
        }
    }

    /// The text that the connection target shows itself as.
    pub fn display_string(&self) -> (r: String)
        ensures
            r@ == self.display_text(),
    {
        let mut out = String::new();
        match self {
            TcpConnection::Addrs(addrs) => {
                push_joined(&mut out, addrs, "https://", ", ");
            },
            TcpConnection::Connected(socket) => {
                out.append("https://");
                socket.push_address(&mut out);
            },
        }
        out
    }

    /// Appends the debugging form of the connection target to `out`.
    pub fn push_debug(&self, out: &mut String)
        ensures
            final(out)@ == old(out)@ + self.debug_text(),
    {
        match self {
            TcpConnection::Addrs(addrs) => {
                out.append("Addrs([");
                push_joined(out, addrs, "", ", ");
                out.append("])");
            },
            TcpConnection::Connected(socket) => {
                out.append("Connected(");
                socket.push_address(out);
                out.append(")");
            },
        }
    }
}

} // verus!
