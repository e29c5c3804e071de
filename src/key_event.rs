use vstd::prelude::*;

verus! {

/// Whether a key is being pressed or has been released.
///
/// `PressingDown`: the user is now pressing this key.
/// `LiftedOff`: the user is no longer pressing this key.
#[derive(Clone, Copy, Debug, PartialEq, Eq, Structural)]
pub enum KeyEvent {
    PressingDown,
    LiftedOff,
}

impl KeyEvent {
    /// True exactly when the key has been released.
    pub fn is_up(&self) -> (r: bool)
        ensures
            r == (*self == KeyEvent::LiftedOff),
    {
        matches!(self, KeyEvent::LiftedOff)
    }

    /// True exactly when the key is being pressed.
    pub fn is_down(&self) -> (r: bool)
        ensures
            r == (*self == KeyEvent::PressingDown),
    {
        matches!(self, KeyEvent::PressingDown)
    }
}

} // verus!
