use vstd::prelude::*;

use crate::connection::{poll_reaction_matches, ConnectionState, NodeEvent, Reaction};
use crate::script_engine::fresh_engine;
use crate::server::{after_tick, ready, Server, ServerState};

verus! {

pub const NANOS_PER_SECOND: u64 = 1_000_000_000;

/// Presentation rate that a client starts with.
pub const DEFAULT_FRAMES_PER_SECOND: u32 = 60;

/// Simulation rate that a server starts with.
pub const DEFAULT_TICKS_PER_SECOND: u32 = 20;

/// The loop period, in nanoseconds, for a target rate of `hz` iterations per second.
pub open spec fn period_of(hz: u32) -> u64 {
    (NANOS_PER_SECOND as int / hz as int) as u64
}

/// How the loop is paced.
#[derive(Clone, Copy, Debug, PartialEq, Eq, Structural)]
pub enum VSyncMode {
    /// The loop sleeps out each period itself.
    Off,
    /// The display's sync paces presentation; the loop does not sleep as well.
    On,
    Double,
    Triple,
}

/// A pacing mode that this loop does not implement.
#[derive(Clone, Copy, Debug, PartialEq, Eq, Structural)]
pub enum PacingError {
    Unsupported,
}

/// The settings a process starts with.
pub struct CommandLineInterface {
    /// Host the authoritative simulation (else connect to one).
    pub server: bool,
    pub address: String,
    pub port: i32,
    pub game: String,
    pub client_name: String,
}

/// Where a client connects, and under which name.
pub struct ClientTarget {
    pub client_name: String,
    pub address: String,
    pub port: i32,
}

/// The one role of a process.
pub enum ServerClient {
    Server(Server),
    Client(ClientTarget),
}

impl ServerClient {
    pub fn is_client(&self) -> (r: bool)
        ensures
            r == (self is Client),
    {
        matches!(self, ServerClient::Client(_))
    }

    pub fn is_server(&self) -> (r: bool)
        ensures
            r == (self is Server),
    {
        matches!(self, ServerClient::Server(_))
    }
}

/// What the loop scheduler holds, as plain values.
pub struct GameState {
    /// Local copy of the shutdown flag; once true it stays true.
    pub should_close: bool,
    pub goal_frames_per_second: u32,
    pub goal_ticks_per_second: u32,
    pub is_server: bool,
    /// The period the pacing interval is set to, in nanoseconds.
    pub period: u64,
    /// Time between the starts of the last two iterations, in nanoseconds.
    pub delta: u64,
    pub vsync_mode: VSyncMode,
    /// The server's state, when the role is server.
    pub server: Option<ServerState>,
}

/// The rate goal that the role selects: ticks for a server, frames for a client.
pub open spec fn active_goal(s: GameState) -> u32 {
    if s.is_server {
        s.goal_ticks_per_second
    } else {
        s.goal_frames_per_second
    }
}

/// The loop sleeps out the period itself unless presentation sync paces it;
/// a server always paces itself.
pub open spec fn paces_itself(s: GameState) -> bool {
    s.vsync_mode == VSyncMode::Off || s.is_server
}

/// Well-formed scheduler state: positive goals, the period matching the
/// active goal, and a server that can be ticked.
pub open spec fn game_wf(s: GameState) -> bool {
    &&& s.goal_frames_per_second > 0
    &&& s.goal_ticks_per_second > 0
    &&& s.period == period_of(active_goal(s))
    &&& (s.is_server <==> s.server is Some)
    &&& (s.server matches Some(v) ==> ready(v))
}

/// Whether the role asks to stop in this iteration: the server's own
/// decision, or the client's quit request `quit`.
pub open spec fn role_stop(s: GameState, quit: bool) -> bool {
    if s.is_server {
        s.server->0.shutdown_approved
    } else {
        quit
    }
}

/// The state after one iteration with `delta` nanoseconds since the last.
pub open spec fn after_iteration(s: GameState, delta: u64, quit: bool) -> GameState {
    GameState {
        should_close: s.should_close || role_stop(s, quit),
        delta,
        server: if s.is_server {
            Some(after_tick(s.server->0, delta))
        } else {
            None
        },
        ..s
    }
}

/// The state after the shared flag was read as `flag`.
pub open spec fn observed(s: GameState, flag: bool) -> GameState {
    GameState { should_close: s.should_close || flag, ..s }
}

/// What one iteration asks of the loop around it.
pub struct Iteration {
    /// How the network poll was dispatched (`Idle` for a client).
    pub reaction: Reaction,
    /// The role asked to stop: the shared flag is to be set.
    pub shutdown: bool,
    /// The loop sleeps out the rest of the period.
    pub pace: bool,
}

/// The loop scheduler: owns the role, the rate goals and the shutdown latch,
/// and decides each iteration.
pub struct Game {
    should_close: bool,
    goal_frames_per_second: u32,
    goal_ticks_per_second: u32,
    serverclient: ServerClient,
    period: u64,
    delta: u64,
    vsync_mode: VSyncMode,
}

impl View for Game {
    type V = GameState;

    closed spec fn view(&self) -> GameState {
        GameState {
            should_close: self.should_close,
            goal_frames_per_second: self.goal_frames_per_second,
            goal_ticks_per_second: self.goal_ticks_per_second,
            is_server: self.serverclient is Server,
            period: self.period,
            delta: self.delta,
            vsync_mode: self.vsync_mode,
            server: match self.serverclient {
                ServerClient::Server(s) => Some(s@),
                ServerClient::Client(_) => None,
            },
        }
    }
}

impl Game {
    /// A scheduler for the role that `cli` selects, paced at that role's
    /// default goal.
    pub fn new(cli: CommandLineInterface) -> (r: Game)
        ensures
            game_wf(r@),
            !r@.should_close,
            r@.goal_frames_per_second == DEFAULT_FRAMES_PER_SECOND,
            r@.goal_ticks_per_second == DEFAULT_TICKS_PER_SECOND,
            r@.is_server == cli.server,
            r@.delta == 0,
            r@.vsync_mode == VSyncMode::Off,
            cli.server ==> r@.server == Some(
                ServerState {
                    game: cli.game@,
                    engine: Some(fresh_engine(cli.game@)),
                    connection: Some(ConnectionState { address: cli.address@, port: cli.port }),
                    shutdown_approved: false,
                },
            ),
    {
        let serverclient = if cli.server {
            ServerClient::Server(Server::new(cli.address, cli.port, cli.game))
        } else {
            ServerClient::Client(
                ClientTarget { client_name: cli.client_name, address: cli.address, port: cli.port },
            )
        };
        let mut game = Game {
            should_close: false,
            goal_frames_per_second: DEFAULT_FRAMES_PER_SECOND,
            goal_ticks_per_second: DEFAULT_TICKS_PER_SECOND,
            serverclient,
            period: 0,
            delta: 0,
            vsync_mode: VSyncMode::Off,
        };
        game.update_target_framerate_goal();
        game
    }

    /// Set the period to that of the goal the role selects.
    fn update_target_framerate_goal(&mut self)
        requires
            old(self)@.goal_frames_per_second > 0,
            old(self)@.goal_ticks_per_second > 0,
        ensures
            final(self)@ == (GameState { period: period_of(active_goal(old(self)@)), ..old(self)@ }),
    {
        let goal = match self.serverclient {
            ServerClient::Client(_) => self.goal_frames_per_second,
            ServerClient::Server(_) => self.goal_ticks_per_second,
        };
        self.period = NANOS_PER_SECOND / (goal as u64);
    }

    /// Time between the starts of the last two iterations, in nanoseconds.
    pub fn get_delta(&self) -> (r: u64)
        ensures
            r == self@.delta,
    {
        self.delta
    }

    /// The period the pacing interval is to have, in nanoseconds.
    pub fn get_period(&self) -> (r: u64)
        ensures
            r == self@.period,
    {
        self.period
    }

    pub fn is_server(&self) -> (r: bool)
        ensures
            r == self@.is_server,
    {
        self.serverclient.is_server()
    }

    /// Whether shutdown has been requested or observed.
    pub fn is_shutting_down(&self) -> (r: bool)
        ensures
            r == self@.should_close,
    {
        self.should_close
    }

    /// The server, when the role is server.
    pub fn get_server(&self) -> (r: Option<&Server>)
        ensures
            match self@.server {
                Some(v) => r matches Some(x) && x@ == v,
                None => r is None,
            },
    {
        match &self.serverclient {
            ServerClient::Server(s) => Some(s),
            ServerClient::Client(_) => None,
        }
    }

    /// Set the presentation goal. The period changes only when the role is
    /// client.
    pub fn set_frame_rate_target(&mut self, new_frames_per_second_goal: u32)
        requires
            game_wf(old(self)@),
            new_frames_per_second_goal > 0,
        ensures
            game_wf(final(self)@),
            final(self)@ == (GameState {
                goal_frames_per_second: new_frames_per_second_goal,
                period: final(self)@.period,
                ..old(self)@
            }),
            old(self)@.is_server ==> final(self)@.period == old(self)@.period,
            !old(self)@.is_server ==> final(self)@.period == period_of(new_frames_per_second_goal),
    {
        self.goal_frames_per_second = new_frames_per_second_goal;
        self.update_target_framerate_goal();
    }

    /// Set the simulation goal. The period changes only when the role is
    /// server.
    pub fn set_tick_rate_target(&mut self, new_ticks_per_second_goal: u32)
        requires
            game_wf(old(self)@),
            new_ticks_per_second_goal > 0,
        ensures
            game_wf(final(self)@),
            final(self)@ == (GameState {
                goal_ticks_per_second: new_ticks_per_second_goal,
                period: final(self)@.period,
                ..old(self)@
            }),
            !old(self)@.is_server ==> final(self)@.period == old(self)@.period,
            old(self)@.is_server ==> final(self)@.period == period_of(new_ticks_per_second_goal),
    {
        self.goal_ticks_per_second = new_ticks_per_second_goal;
        self.update_target_framerate_goal();
    }

    /// Choose how the loop is paced. Only `Off` and `On` are implemented;
    /// the others are refused and leave the mode as it was.
    pub fn set_vsync_mode(&mut self, mode: VSyncMode) -> (r: Result<(), PacingError>)
        ensures
            (mode == VSyncMode::Off || mode == VSyncMode::On) ==> r is Ok && final(self)@ == (
            GameState { vsync_mode: mode, ..old(self)@ }),
            (mode == VSyncMode::Double || mode == VSyncMode::Triple) ==> r == Err::<(), PacingError>(
                PacingError::Unsupported,
            ) && final(self)@ == old(self)@,
    {
        match mode {
            VSyncMode::Off | VSyncMode::On => {
                self.vsync_mode = mode;
                Ok(())
            },
            _ => Err(PacingError::Unsupported),
        }
    }

    /// Request that the loop stop once the current iteration is done.
    pub fn shutdown_game(&mut self)
        ensures
            final(self)@ == (GameState { should_close: true, ..old(self)@ }),
    {
        self.should_close = true;
    }

    /// One iteration, `delta` nanoseconds after the start of the last one.
    /// `polled` is the outcome of this iteration's zero-timeout network poll
    /// (server role); `client_wants_quit` is the presentation stack's quit
    /// request (client role).
    pub fn main(&mut self, delta: u64, polled: Option<NodeEvent>, client_wants_quit: bool) -> (r:
        Iteration)
        requires
            game_wf(old(self)@),
        ensures
            game_wf(final(self)@),
            final(self)@ == after_iteration(old(self)@, delta, client_wants_quit),
            r.shutdown == role_stop(old(self)@, client_wants_quit),
            r.pace == paces_itself(old(self)@),
            old(self)@.is_server ==> poll_reaction_matches(polled, r.reaction),
            !old(self)@.is_server ==> r.reaction == Reaction::Idle,
    {
        self.delta = delta;
        let (reaction, stop) = match &mut self.serverclient {
            ServerClient::Server(server) => {
                let reaction = server.on_tick(polled, delta);
                (reaction, server.shutdown_is_approved())
            },
            ServerClient::Client(_) => (Reaction::Idle, client_wants_quit),
        };
        if stop {
            self.shutdown_game();
        }
        let pace = self.vsync_mode == VSyncMode::Off || self.serverclient.is_server();
        Iteration { reaction, shutdown: stop, pace }
    }

    /// Take in the shared shutdown flag as read at the end of an iteration;
    /// the result tells whether the loop ends now.
    pub fn check_shutdown(&mut self, flag: bool) -> (stop: bool)
        ensures
            final(self)@ == observed(old(self)@, flag),
            stop == final(self)@.should_close,
    {
        if flag {
            self.should_close = true;
        }
        self.should_close
    }
}

/// The check that closes an iteration ends the loop exactly when shutdown was
/// requested before the iteration, the role asked to stop during it, or the
/// shared flag is set; and an iteration under way always runs to its end.
pub proof fn lemma_loop_ends_after_shutdown(s: GameState, delta: u64, quit: bool, flag: bool)
    ensures
        observed(after_iteration(s, delta, quit), flag).should_close == (s.should_close || role_stop(
            s,
            quit,
        ) || flag),
        s.should_close ==> observed(after_iteration(s, delta, quit), flag).should_close,
        after_iteration(s, delta, quit).delta == delta,
{
}

/// Changing the presentation goal while the role is server, or the simulation
/// goal while it is client, leaves the pacing period as it was.
pub proof fn lemma_role_isolation(s: GameState, hz: u32)
    requires
        game_wf(s),
        hz > 0,
    ensures
        s.is_server ==> period_of(active_goal(GameState { goal_frames_per_second: hz, ..s }))
            == s.period,
        !s.is_server ==> period_of(active_goal(GameState { goal_ticks_per_second: hz, ..s }))
            == s.period,
{
}

} // verus!
