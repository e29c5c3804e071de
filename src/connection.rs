use vstd::prelude::*;
use vstd::utf8::*;

verus! {

/// The decimal digit `d` as a character.
pub open spec fn digit_char(d: int) -> char {
    if d == 0 {
        '0'
    } else if d == 1 {
        '1'
    } else if d == 2 {
        '2'
    } else if d == 3 {
        '3'
    } else if d == 4 {
        '4'
    } else if d == 5 {
        '5'
    } else if d == 6 {
        '6'
    } else if d == 7 {
        '7'
    } else if d == 8 {
        '8'
    } else {
        '9'
    }
}

/// The decimal digits of `n`, most significant first, without leading zeros.
pub open spec fn decimal(n: nat) -> Seq<char>
    decreases n,
{
    if n < 10 {
        seq![digit_char(n as int)]
    } else {
        decimal(n / 10).push(digit_char((n % 10) as int))
    }
}

/// `v` written in decimal, with a leading `-` when it is negative.
pub open spec fn int_text(v: int) -> Seq<char> {
    if v < 0 {
        seq!['-'] + decimal((-v) as nat)
    } else {
        decimal(v as nat)
    }
}

/// The `address:port` text that names an endpoint.
pub open spec fn socket_text(address: Seq<char>, port: int) -> Seq<char> {
    address + seq![':'] + int_text(port)
}

fn digit_str(d: u32) -> (r: &'static str)
    requires
        d < 10,
    ensures
        r@ == seq![digit_char(d as int)],
{
    proof {
        reveal_strlit("0");
        reveal_strlit("1");
        reveal_strlit("2");
        reveal_strlit("3");
        reveal_strlit("4");
        reveal_strlit("5");
        reveal_strlit("6");
        reveal_strlit("7");
        reveal_strlit("8");
        reveal_strlit("9");
    }
    let r = if d == 0 {
        "0"
    } else if d == 1 {
        "1"
    } else if d == 2 {
        "2"
    } else if d == 3 {
        "3"
    } else if d == 4 {
        "4"
    } else if d == 5 {
        "5"
    } else if d == 6 {
        "6"
    } else if d == 7 {
        "7"
    } else if d == 8 {
        "8"
    } else {
        "9"
    };
    assert(r@ =~= seq![digit_char(d as int)]);
    r
}

fn append_decimal(s: &mut String, n: u32)
    ensures
        final(s)@ == old(s)@ + decimal(n as nat),
    decreases n,
{
    if n >= 10 {
        append_decimal(s, n / 10);
    }
    s.append(digit_str(n % 10));
    assert(final(s)@ =~= old(s)@ + decimal(n as nat));
}

fn append_int(s: &mut String, v: i32)
    ensures
        final(s)@ == old(s)@ + int_text(v as int),
{
    if v < 0 {
        proof {
            reveal_strlit("-");
        }
        s.append("-");
        let m: u32 = (0i64 - v as i64) as u32;
        append_decimal(s, m);
        assert(final(s)@ =~= old(s)@ + int_text(v as int));
    } else {
        append_decimal(s, v as u32);
    }
}

/// One event that the transport delivers.
#[derive(Debug, PartialEq, Eq)]
pub enum NetworkEvent {
    /// A peer reached this endpoint.
    Connected,
    /// A peer was accepted by a listening endpoint.
    Accepted,
    /// A datagram arrived, holding these bytes.
    Message(Vec<u8>),
    /// A peer went away.
    Disconnected,
}

/// What one poll of the transport handed over.
#[derive(Debug, PartialEq, Eq)]
pub enum NodeEvent {
    Network(NetworkEvent),
    /// An internal signal of the transport node.
    Signal,
}

/// How the connection reacted to one poll.
#[derive(Debug, PartialEq, Eq)]
pub enum Reaction {
    /// Nothing was pending.
    Idle,
    /// A peer connected: informational only.
    PeerConnected,
    /// A peer was accepted: noted, no state changes.
    PeerAccepted,
    /// A peer disconnected: noted, no state changes.
    PeerDisconnected,
    /// A message held valid text, which is passed on.
    Received(String),
    /// A message did not hold valid UTF-8 text and was dropped.
    Malformed,
    /// A node signal: noted, no state changes.
    Signal,
}

/// The reaction owed to one network event, with the text of a message as
/// `Some` when its bytes are valid UTF-8.
pub open spec fn reaction_matches(event: NetworkEvent, r: Reaction) -> bool {
    match event {
        NetworkEvent::Connected => r == Reaction::PeerConnected,
        NetworkEvent::Accepted => r == Reaction::PeerAccepted,
        NetworkEvent::Disconnected => r == Reaction::PeerDisconnected,
        NetworkEvent::Message(bytes) => if valid_utf8(bytes@) {
            r matches Reaction::Received(t) && t@ == decode_utf8(bytes@)
        } else {
            r == Reaction::Malformed
        },
    }
}

/// The reaction owed to the outcome of one poll.
pub open spec fn poll_reaction_matches(polled: Option<NodeEvent>, r: Reaction) -> bool {
    match polled {
        None => r == Reaction::Idle,
        Some(NodeEvent::Signal) => r == Reaction::Signal,
        Some(NodeEvent::Network(e)) => reaction_matches(e, r),
    }
}

/// Relies on `String::from_utf8`: it succeeds exactly when the bytes are valid
/// UTF-8, and then holds the characters that they encode.
#[verifier::external_body]
fn text_from_bytes(bytes: Vec<u8>) -> (r: Option<String>)
    ensures
        r is Some <==> valid_utf8(bytes@),
        r matches Some(t) ==> t@ == decode_utf8(bytes@),
{
    String::from_utf8(bytes).ok()
}

/// The endpoint settings of a datagram connection.
pub struct ServerConnection {
    address: String,
    port: i32,
}

/// What a `ServerConnection` holds, as plain values.
pub struct ConnectionState {
    pub address: Seq<char>,
    pub port: i32,
}

impl View for ServerConnection {
    type V = ConnectionState;

    closed spec fn view(&self) -> ConnectionState {
        ConnectionState { address: self.address@, port: self.port }
    }
}

impl ServerConnection {
    /// Settings for an endpoint at `address:port`.
    pub fn new(address: String, port: i32) -> (r: ServerConnection)
        ensures
            r@ == (ConnectionState { address: address@, port }),
    {
        ServerConnection { address, port }
    }

    /// Change the address; an endpoint already open is not rebound.
    pub fn set_address(&mut self, new_address: String)
        ensures
            final(self)@ == (ConnectionState { address: new_address@, port: old(self)@.port }),
    {
        self.address = new_address;
    }

    /// Change the port; an endpoint already open is not rebound.
    pub fn set_port(&mut self, new_port: i32)
        ensures
            final(self)@ == (ConnectionState { address: old(self)@.address, port: new_port }),
    {
        self.port = new_port;
    }

    pub fn get_address(&self) -> (r: &String)
        ensures
            r@ == self@.address,
    {
        &self.address
    }

    pub fn get_port(&self) -> (r: i32)
        ensures
            r == self@.port,
    {
        self.port
    }

    /// The `address:port` text that the transport resolves and binds.
    pub fn get_socket(&self) -> (r: String)
        ensures
            r@ == socket_text(self@.address, self@.port as int),
    {
        let mut socket = self.address.clone();
        proof {
            reveal_strlit(":");
        }
        socket.append(":");
        append_int(&mut socket, self.port);
        assert(socket@ =~= socket_text(self@.address, self@.port as int));
        socket
    }

    /// React to one network event. Text that is not valid UTF-8 is dropped
    /// as `Malformed`; valid text is passed on unchanged.
    pub fn event_reaction(&self, event: NetworkEvent) -> (r: Reaction)
        ensures
            reaction_matches(event, r),
            event matches NetworkEvent::Message(bytes) ==> (r matches Reaction::Received(t)
                ==> encode_utf8(t@) == bytes@),
    {
        match event {
            NetworkEvent::Connected => Reaction::PeerConnected,
            NetworkEvent::Accepted => Reaction::PeerAccepted,
            NetworkEvent::Disconnected => Reaction::PeerDisconnected,
            NetworkEvent::Message(bytes) => {
                let ghost b = bytes@;
                match text_from_bytes(bytes) {
                    Some(t) => {
                        proof {
                            decode_utf8_encode_utf8(b);
                        }
                        Reaction::Received(t)
                    },
                    None => Reaction::Malformed,
                }
            },
        }
    }

    /// Dispatch the outcome of one zero-timeout poll of the transport.
    pub fn listen(&self, polled: Option<NodeEvent>) -> (r: Reaction)
        ensures
            poll_reaction_matches(polled, r),
    {
        match polled {
            None => Reaction::Idle,
            Some(NodeEvent::Signal) => Reaction::Signal,
            Some(NodeEvent::Network(e)) => self.event_reaction(e),
        }
    }
}

} // verus!
