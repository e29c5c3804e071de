use minetest::connection::{NetworkEvent, NodeEvent, Reaction, ServerConnection};
use std::time::{Duration, Instant};

use message_io::network::Transport;
use message_io::node;

#[test]
fn socket_text_of_address_and_port() {
    let c = ServerConnection::new("127.0.0.1".to_string(), 30000);
    assert_eq!(c.get_socket(), "127.0.0.1:30000");
    let c = ServerConnection::new("localhost".to_string(), 0);
    assert_eq!(c.get_socket(), "localhost:0");
    let c = ServerConnection::new("h".to_string(), -42);
    assert_eq!(c.get_socket(), "h:-42");
    let c = ServerConnection::new("h".to_string(), i32::MIN);
    assert_eq!(c.get_socket(), "h:-2147483648");
    let c = ServerConnection::new("h".to_string(), i32::MAX);
    assert_eq!(c.get_socket(), "h:2147483647");
}

#[test]
fn setters_change_the_socket_text() {
    let mut c = ServerConnection::new("127.0.0.1".to_string(), 30000);
    c.set_address("0.0.0.0".to_string());
    c.set_port(1234);
    assert_eq!(c.get_address(), "0.0.0.0");
    assert_eq!(c.get_port(), 1234);
    assert_eq!(c.get_socket(), "0.0.0.0:1234");
}

#[test]
fn valid_text_is_forwarded_unchanged() {
    let c = ServerConnection::new("127.0.0.1".to_string(), 30000);
    let r = c.event_reaction(NetworkEvent::Message("hello, wörld".as_bytes().to_vec()));
    assert_eq!(r, Reaction::Received("hello, wörld".to_string()));
    let r = c.event_reaction(NetworkEvent::Message(Vec::new()));
    assert_eq!(r, Reaction::Received(String::new()));
}

#[test]
fn malformed_text_is_dropped() {
    let c = ServerConnection::new("127.0.0.1".to_string(), 30000);
    assert_eq!(c.event_reaction(NetworkEvent::Message(vec![0xff, 0xfe, 0x41])), Reaction::Malformed);
    assert_eq!(c.event_reaction(NetworkEvent::Message(vec![0x61, 0xc3])), Reaction::Malformed);
}

#[test]
fn peer_events_are_noted() {
    let c = ServerConnection::new("127.0.0.1".to_string(), 30000);
    assert_eq!(c.event_reaction(NetworkEvent::Connected), Reaction::PeerConnected);
    assert_eq!(c.event_reaction(NetworkEvent::Accepted), Reaction::PeerAccepted);
    assert_eq!(c.event_reaction(NetworkEvent::Disconnected), Reaction::PeerDisconnected);
}

#[test]
fn listen_dispatches_a_poll() {
    let c = ServerConnection::new("127.0.0.1".to_string(), 30000);
    assert_eq!(c.listen(None), Reaction::Idle);
    assert_eq!(c.listen(Some(NodeEvent::Signal)), Reaction::Signal);
    assert_eq!(
        c.listen(Some(NodeEvent::Network(NetworkEvent::Message(b"tick".to_vec())))),
        Reaction::Received("tick".to_string())
    );
}

#[test]
fn second_bind_on_same_endpoint_fails() {
    let c = ServerConnection::new("127.0.0.1".to_string(), 0);
    let (handler, _listener) = node::split::<()>();
    let (_, bound) = handler.network().listen(Transport::Udp, c.get_socket()).unwrap();
    let taken = ServerConnection::new("127.0.0.1".to_string(), bound.port() as i32);
    let (other, _other_listener) = node::split::<()>();
    assert!(other.network().listen(Transport::Udp, taken.get_socket()).is_err());
    handler.stop();
    other.stop();
}

#[test]
fn empty_poll_returns_at_once() {
    let c = ServerConnection::new("127.0.0.1".to_string(), 0);
    let (handler, listener) = node::split::<()>();
    handler.network().listen(Transport::Udp, c.get_socket()).unwrap();
    let (_task, mut receiver) = listener.enqueue();
    let start = Instant::now();
    let mut polled = None;
    for _ in 0..100 {
        polled = receiver.receive_timeout(Duration::ZERO);
        if polled.is_some() {
            break;
        }
    }
    assert!(polled.is_none());
    assert!(start.elapsed() < Duration::from_millis(500));
    assert_eq!(c.listen(None), Reaction::Idle);
    handler.stop();
}
