use vstd::prelude::*;

verus! {

/// `a + b`, held at `u64::MAX` when it would exceed it.
pub open spec fn sat_add(a: u64, b: u64) -> u64 {
    if a + b > u64::MAX {
        u64::MAX
    } else {
        (a + b) as u64
    }
}

/// What a scripting engine handle holds, as plain values.
pub struct EngineState {
    /// The game the engine was loaded with.
    pub game: Seq<char>,
    /// Ticks run since the engine was loaded.
    pub ticks: u64,
    /// Simulated time run since the engine was loaded, in nanoseconds.
    pub elapsed: u64,
}

/// The state of an engine just loaded with `game`: nothing carried over.
pub open spec fn fresh_engine(game: Seq<char>) -> EngineState {
    EngineState { game, ticks: 0, elapsed: 0 }
}

/// The state of engine `e` after one tick of `delta` nanoseconds.
pub open spec fn ticked(e: EngineState, delta: u64) -> EngineState {
    EngineState { game: e.game, ticks: sat_add(e.ticks, 1), elapsed: sat_add(e.elapsed, delta) }
}

/// The handle of the scripting engine that a role owns. It is loaded with a
/// game, ticked with the time that passed, and thrown away on reset.
pub struct ScriptEngine {
    game: String,
    ticks: u64,
    elapsed: u64,
}

impl View for ScriptEngine {
    type V = EngineState;

    closed spec fn view(&self) -> EngineState {
        EngineState { game: self.game@, ticks: self.ticks, elapsed: self.elapsed }
    }
}

impl ScriptEngine {
    /// Load a fresh engine with `game`.
    pub fn new(game: &String) -> (r: ScriptEngine)
        ensures
            r@ == fresh_engine(game@),
    {
        ScriptEngine { game: game.clone(), ticks: 0, elapsed: 0 }
    }

    /// Run one tick of `delta` nanoseconds.
    pub fn on_tick(&mut self, delta: u64)
        ensures
            final(self)@ == ticked(old(self)@, delta),
    {
        self.ticks = self.ticks.saturating_add(1);
        self.elapsed = self.elapsed.saturating_add(delta);
    }

    pub fn get_game(&self) -> (r: &String)
        ensures
            r@ == self@.game,
    {
        &self.game
    }

    pub fn get_ticks(&self) -> (r: u64)
        ensures
            r == self@.ticks,
    {
        self.ticks
    }

    pub fn get_elapsed(&self) -> (r: u64)
        ensures
            r == self@.elapsed,
    {
        self.elapsed
    }
}

} // verus!
