//! What passes between the core and its host.
//!
//! The core has no display, keyboard or random source of its own. An
//! instruction that needs one reports what it needs as a `Status` and is not
//! carried out; the host does its part and runs the same cycle again with the
//! answer as its `Reply`.

use vstd::prelude::*;

verus! {

/// Number of keys on the keypad: keys are `0..=15`.
pub const KEY_COUNT: u8 = 16;

/// The host's answer to what the previous cycle asked for.
#[derive(Clone, Copy, Debug, PartialEq, Eq, Structural)]
pub enum Reply {
    /// Nothing to say.
    Nothing,
    /// A random byte.
    Random(u8),
    /// Whether the key asked about is down.
    KeyState(bool),
    /// The key that was pressed.
    KeyPress(u8),
    /// Whether drawing the sprite turned off a pixel that was on.
    Collision(bool),
}

/// The key that a reply reports as pressed, if it reports one of the keypad's
/// keys.
pub open spec fn key_pressed(reply: Reply) -> Option<u8> {
    match reply {
        Reply::KeyPress(key) => if key < KEY_COUNT {
            Some(key)
        } else {
            None
        },
        _ => None,
    }
}

/// How a cycle ended, as long as it did not fail.
#[derive(Debug, PartialEq, Eq)]
pub enum Status {
    /// The instruction is done; the next one follows it.
    Next,
    /// The instruction is done and asks to skip the one that follows it.
    Skip,
    /// The instruction is done and has set the program counter itself.
    Jump,
    /// The instruction is done; the host clears the display.
    ClearDisplay,
    /// Not done: the host supplies a random byte.
    NeedRandom,
    /// Not done: the host says whether `key` is down.
    NeedKeyState { key: u8 },
    /// Not done: the instruction waits until a key is pressed.
    WaitingForKey,
    /// Not done: the host draws `sprite`, one byte per row, at column `x` and
    /// row `y`, and says whether a pixel collided.
    NeedDraw { x: u8, y: u8, sprite: Vec<u8> },
}

/// A `Status` as mathematics: the sprite is a sequence.
pub enum Signal {
    Next,
    Skip,
    Jump,
    ClearDisplay,
    NeedRandom,
    NeedKeyState { key: u8 },
    WaitingForKey,
    NeedDraw { x: u8, y: u8, sprite: Seq<u8> },
}

impl Signal {
    /// Whether the instruction was carried out. If not, the state is as it was
    /// and the host owes an answer.
    pub open spec fn retired(self) -> bool {
        self is Next || self is Skip || self is Jump || self is ClearDisplay
    }
}

impl View for Status {
    type V = Signal;

    open spec fn view(&self) -> Signal {
        match *self {
            Status::Next => Signal::Next,
            Status::Skip => Signal::Skip,
            Status::Jump => Signal::Jump,
            Status::ClearDisplay => Signal::ClearDisplay,
            Status::NeedRandom => Signal::NeedRandom,
            Status::NeedKeyState { key } => Signal::NeedKeyState { key },
            Status::WaitingForKey => Signal::WaitingForKey,
            Status::NeedDraw { x, y, sprite } => Signal::NeedDraw { x, y, sprite: sprite@ },
        }
    }
}

impl Status {
    /// Whether the instruction was carried out.
    pub fn retired(&self) -> (done: bool)
        ensures
            done == self@.retired(),
    {
        match self {
            Status::Next | Status::Skip | Status::Jump | Status::ClearDisplay => true,
            _ => false,
        }
    }
}

} // verus!
