use vstd::prelude::*;

use crate::connection::{
    poll_reaction_matches, socket_text, ConnectionState, NodeEvent, Reaction, ServerConnection,
};
use crate::script_engine::{fresh_engine, ticked, EngineState, ScriptEngine};

verus! {

/// What a `Server` holds, as plain values.
pub struct ServerState {
    /// The game that every fresh scripting engine is loaded with.
    pub game: Seq<char>,
    pub engine: Option<EngineState>,
    pub connection: Option<ConnectionState>,
    /// Whether the server decided on its own to stop.
    pub shutdown_approved: bool,
}

/// A server may be ticked only while both its connection and its scripting
/// engine exist.
pub open spec fn ready(s: ServerState) -> bool {
    s.engine is Some && s.connection is Some
}

/// `s` with its scripting engine replaced by a fresh one.
pub open spec fn after_reset(s: ServerState) -> ServerState {
    ServerState { engine: Some(fresh_engine(s.game)), ..s }
}

/// `s` after one tick of `delta` nanoseconds.
pub open spec fn after_tick(s: ServerState, delta: u64) -> ServerState {
    ServerState { engine: Some(ticked(s.engine->0, delta)), ..s }
}

/// The authoritative role: a network connection and a scripting engine,
/// driven one tick at a time.
pub struct Server {
    game: String,
    lua_engine: Option<ScriptEngine>,
    connection: Option<ServerConnection>,
    shutdown_approved: bool,
}

impl View for Server {
    type V = ServerState;

    closed spec fn view(&self) -> ServerState {
        ServerState {
            game: self.game@,
            engine: match self.lua_engine {
                Some(e) => Some(e@),
                None => None,
            },
            connection: match self.connection {
                Some(c) => Some(c@),
                None => None,
            },
            shutdown_approved: self.shutdown_approved,
        }
    }
}

impl Server {
    /// A server for `address:port` whose scripting engine is loaded with `game`.
    pub fn new(address: String, port: i32, game: String) -> (r: Server)
        ensures
            r@ == (ServerState {
                game: game@,
                engine: Some(fresh_engine(game@)),
                connection: Some(ConnectionState { address: address@, port }),
                shutdown_approved: false,
            }),
            ready(r@),
    {
        let connection = ServerConnection::new(address, port);
        let mut server = Server { game, lua_engine: None, connection: Some(connection), shutdown_approved: false };
        server.reset_lua_vm();
        server
    }

    /// Drop the scripting engine.
    fn delete_lua_vm(&mut self)
        ensures
            final(self)@ == (ServerState { engine: None, ..old(self)@ }),
    {
        self.lua_engine = None;
    }

    /// Load a fresh scripting engine with the server's game.
    fn create_lua_vm(&mut self)
        ensures
            final(self)@ == after_reset(old(self)@),
    {
        self.lua_engine = Some(ScriptEngine::new(&self.game));
    }

    /// Throw the scripting engine away and load a fresh one: nothing of the
    /// old engine carries over.
    pub fn reset_lua_vm(&mut self)
        ensures
            final(self)@ == after_reset(old(self)@),
    {
        self.delete_lua_vm();
        self.create_lua_vm();
    }

    /// Whether both the connection and the scripting engine exist.
    pub fn is_ready(&self) -> (r: bool)
        ensures
            r == ready(self@),
    {
        self.lua_engine.is_some() && self.connection.is_some()
    }

    /// One tick: first the outcome of this iteration's network poll is
    /// dispatched, then the scripting engine runs for `delta` nanoseconds.
    /// A server without its connection or its engine cannot be ticked.
    pub fn on_tick(&mut self, polled: Option<NodeEvent>, delta: u64) -> (r: Reaction)
        requires
            ready(old(self)@),
        ensures
            poll_reaction_matches(polled, r),
            final(self)@ == after_tick(old(self)@, delta),
    {
        let reaction = match &self.connection {
            Some(connection) => connection.listen(polled),
            None => Reaction::Idle,
        };
        match &mut self.lua_engine {
            Some(engine) => engine.on_tick(delta),
            None => {},
        }
        reaction
    }

    /// Whether the server decided on its own to stop.
    pub fn shutdown_is_approved(&self) -> (r: bool)
        ensures
            r == self@.shutdown_approved,
    {
        self.shutdown_approved
    }

    /// Record the server's own decision to stop.
    pub fn approve_shutdown(&mut self)
        ensures
            final(self)@ == (ServerState { shutdown_approved: true, ..old(self)@ }),
    {
        self.shutdown_approved = true;
    }

    /// The `address:port` text of the connection, if it exists.
    pub fn get_socket(&self) -> (r: Option<String>)
        ensures
            match self@.connection {
                Some(c) => r matches Some(t) && t@ == socket_text(c.address, c.port as int),
                None => r is None,
            },
    {
        match &self.connection {
            Some(connection) => Some(connection.get_socket()),
            None => None,
        }
    }

    /// The scripting engine, if it exists.
    pub fn get_engine(&self) -> (r: Option<&ScriptEngine>)
        ensures
            match self@.engine {
                Some(e) => r matches Some(x) && x@ == e,
                None => r is None,
            },
    {
        match &self.lua_engine {
            Some(engine) => Some(engine),
            None => None,
        }
    }
}

/// A reset followed at once by a tick succeeds, and leaves an engine that
/// holds the fresh engine ticked once and nothing from before the reset.
pub proof fn lemma_reset_then_tick_is_clean(s: ServerState, delta: u64)
    requires
        s.connection is Some,
    ensures
        ready(after_reset(s)),
        after_tick(after_reset(s), delta).engine == Some(ticked(fresh_engine(s.game), delta)),
        after_tick(after_reset(s), delta).connection == s.connection,
{
}

} // verus!
