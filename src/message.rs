//! Messages passed between the engine's systems.

use crate::camera::CameraAction;
use vstd::prelude::*;

verus! {

/// Whether a key went down or came up.
#[derive(Clone, Copy, PartialEq, Eq, Debug, Structural)]
pub enum KeyState {
    Pressed,
    Released,
}

/// The keys that the engine reacts to; every other key is `Other`.
#[derive(Clone, Copy, PartialEq, Eq, Debug, Structural)]
pub enum Key {
    W,
    A,
    S,
    D,
    Q,
    E,
    Left,
    Right,
    Up,
    Down,
    Other,
}

#[derive(Clone, Copy, PartialEq, Eq, Debug, Structural)]
pub enum Message {
    WindowClosed,
    KeyboardInputReceived(KeyState, Key),
    CameraCommand(CameraAction),
    ReloadScene { index: usize },
}

/// A system that reacts to a batch of messages with messages of its own.
pub trait MessageReceiver {
    fn process_messages(&mut self, messages: &[Message]) -> Vec<Message>;
}

} // verus!
