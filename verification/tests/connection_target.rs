use async_std::net::TcpListener;
use async_std::task::block_on;
use std::io::{Error, ErrorKind};
use tide_openssl::{BoundSocket, ListenError, TcpConnection};

fn socket() -> BoundSocket {
    BoundSocket::new(block_on(TcpListener::bind("127.0.0.1:0")).unwrap())
}

fn port(listener: &TcpListener) -> u16 {
    listener.local_addr().unwrap().port()
}

fn addrs(list: &[&str]) -> TcpConnection {
    TcpConnection::Addrs(list.iter().map(|s| s.to_string()).collect())
}

#[test]
fn addresses_are_pending_until_they_are_bound() {
    let target = addrs(&["localhost:4433", "localhost:4434"]);
    assert_eq!(
        target.pending_addrs().unwrap(),
        &vec![String::from("localhost:4433"), String::from("localhost:4434")]
    );
    assert!(target.listener().is_none());
}

#[test]
fn a_bound_socket_has_no_pending_addresses() {
    let bound = socket();
    let p = port(&bound.listener);
    let target = TcpConnection::Connected(bound);
    assert!(target.pending_addrs().is_none());
    assert_eq!(port(target.listener().unwrap()), p);
}

#[test]
fn addresses_resolve_to_the_bound_socket() {
    let bound = socket();
    let p = port(&bound.listener);
    let mut target = addrs(&["127.0.0.1:0"]);
    assert_eq!(port(target.resolve(Some(Ok(bound))).unwrap()), p);
    assert!(matches!(target, TcpConnection::Connected(_)));
    assert_eq!(port(target.listener().unwrap()), p);
}

#[test]
fn a_bound_socket_is_not_bound_again() {
    let first = socket();
    let p = port(&first.listener);
    let second = socket();
    assert_ne!(port(&second.listener), p);
    let mut target = addrs(&["127.0.0.1:0"]);
    assert_eq!(port(target.resolve(Some(Ok(first))).unwrap()), p);
    assert_eq!(port(target.resolve(Some(Ok(second))).unwrap()), p);
    assert_eq!(port(target.resolve(None).unwrap()), p);
    assert_eq!(
        port(target.resolve(Some(Err(Error::from(ErrorKind::AddrInUse)))).unwrap()),
        p
    );
    assert_eq!(port(target.listener().unwrap()), p);
}

#[test]
fn a_failed_bind_hands_its_error_on() {
    let mut target = addrs(&["127.0.0.1:4433"]);
    match target.resolve(Some(Err(Error::new(ErrorKind::AddrInUse, "address in use")))) {
        Err(ListenError::Bind(e)) => {
            assert_eq!(e.kind(), ErrorKind::AddrInUse);
            assert_eq!(e.to_string(), "address in use");
        }
        other => panic!("unexpected: {:?}", other.map(|_| ())),
    }
    assert_eq!(target.pending_addrs().unwrap(), &vec![String::from("127.0.0.1:4433")]);
}

#[test]
fn an_address_in_use_fails_to_resolve() {
    let taken = block_on(TcpListener::bind("127.0.0.1:0")).unwrap();
    let addr = taken.local_addr().unwrap().to_string();
    let second = block_on(TcpListener::bind(addr.as_str()));
    let e = second.err().expect("the address is in use");
    let mut target = TcpConnection::Addrs(vec![addr.clone()]);
    match target.resolve(Some(Err(e))) {
        Err(ListenError::Bind(e)) => assert_eq!(e.kind(), ErrorKind::AddrInUse),
        other => panic!("unexpected: {:?}", other.map(|_| ())),
    }
    assert!(target.listener().is_none());
    assert_eq!(target.pending_addrs().unwrap(), &vec![addr]);
}

#[test]
fn addresses_with_no_bind_attempted_are_not_bound() {
    let mut target = addrs(&["127.0.0.1:4433"]);
    assert!(matches!(target.resolve(None), Err(ListenError::NotBound)));
    assert!(matches!(target, TcpConnection::Addrs(_)));
}

#[test]
fn pending_addresses_show_as_urls() {
    assert_eq!(addrs(&[]).display_string(), "");
    assert_eq!(addrs(&["localhost:4433"]).display_string(), "https://localhost:4433");
    assert_eq!(
        addrs(&["127.0.0.1:4433", "[::1]:4433"]).display_string(),
        "https://127.0.0.1:4433, https://[::1]:4433"
    );
}

#[test]
fn a_bound_socket_shows_its_local_address() {
    let bound = socket();
    let addr = bound.listener.local_addr().unwrap().to_string();
    let target = TcpConnection::Connected(bound);
    assert_eq!(target.display_string(), format!("https://{}", addr));
}

#[test]
fn a_bound_socket_notes_its_local_address() {
    let listener = block_on(TcpListener::bind("127.0.0.1:0")).unwrap();
    let addr = listener.local_addr().unwrap();
    assert_ne!(addr.port(), 0);
    let bound = BoundSocket::new(listener);
    assert_eq!(bound.local_addr, Some(addr.to_string()));
    assert_eq!(bound.listener.local_addr().unwrap(), addr);
    let mut out = String::from("at ");
    bound.push_address(&mut out);
    assert_eq!(out, format!("at {}", addr));
}

#[test]
fn a_bound_socket_without_an_address_shows_as_unknown() {
    let listener = block_on(TcpListener::bind("127.0.0.1:0")).unwrap();
    let target = TcpConnection::Connected(BoundSocket { listener, local_addr: None });
    assert_eq!(target.display_string(), "https://[unknown]");
    let mut out = String::new();
    target.push_debug(&mut out);
    assert_eq!(out, "Connected([unknown])");
}

#[test]
fn the_debug_form_names_the_variant() {
    let mut out = String::new();
    addrs(&["a:1", "b:2"]).push_debug(&mut out);
    assert_eq!(out, "Addrs([a:1, b:2])");
    let mut out = String::new();
    addrs(&[]).push_debug(&mut out);
    assert_eq!(out, "Addrs([])");
    let bound = socket();
    let addr = bound.listener.local_addr().unwrap().to_string();
    let mut out = String::from("> ");
    TcpConnection::Connected(bound).push_debug(&mut out);
    assert_eq!(out, format!("> Connected({})", addr));
}
