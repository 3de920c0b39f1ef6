//! Turns keyboard input into camera commands.

use crate::camera::CameraAction;
use crate::message::{Key, KeyState, Message, MessageReceiver};
use vstd::prelude::*;

verus! {

/// The camera command bound to a key going down or coming up, if any.
pub open spec fn key_action(state: KeyState, key: Key) -> Option<CameraAction> {
    let pressed = state == KeyState::Pressed;
    match key {
        Key::W => Some(if pressed { CameraAction::TranslateForwardBegin } else { CameraAction::TranslateForwardEnd }),
        Key::S => Some(if pressed { CameraAction::TranslateBackwardBegin } else { CameraAction::TranslateBackwardEnd }),
        Key::D => Some(if pressed { CameraAction::TranslateRightBegin } else { CameraAction::TranslateRightEnd }),
        Key::A => Some(if pressed { CameraAction::TranslateLeftBegin } else { CameraAction::TranslateLeftEnd }),
        Key::Q => Some(if pressed { CameraAction::TwistLeftBegin } else { CameraAction::TwistLeftEnd }),
        Key::E => Some(if pressed { CameraAction::TwistRightBegin } else { CameraAction::TwistRightEnd }),
        Key::Left => Some(if pressed { CameraAction::RotateLeftBegin } else { CameraAction::RotateLeftEnd }),
        Key::Right => Some(if pressed { CameraAction::RotateRightBegin } else { CameraAction::RotateRightEnd }),
        Key::Up => Some(if pressed { CameraAction::RotateUpBegin } else { CameraAction::RotateUpEnd }),
        Key::Down => Some(if pressed { CameraAction::RotateDownBegin } else { CameraAction::RotateDownEnd }),
        Key::Other => None,
    }
}

/// The messages that answer one message: a camera command for a bound key.
pub open spec fn input_response(message: Message) -> Seq<Message> {
    match message {
        Message::KeyboardInputReceived(state, key) => match key_action(state, key) {
            Some(action) => seq![Message::CameraCommand(action)],
            None => Seq::empty(),
        },
        _ => Seq::empty(),
    }
}

/// The answers to a batch of messages, in order.
pub open spec fn input_responses(messages: Seq<Message>) -> Seq<Message>
    decreases messages.len(),
{
    if messages.len() == 0 {
        Seq::empty()
    } else {
        input_responses(messages.drop_last()) + input_response(messages.last())
    }
}

pub struct InputManager;

impl InputManager {
    pub fn new() -> Self {
        InputManager {  }
    }

    /// The camera command bound to the key, if any, as a message.
    pub fn handle_keyboard_input(&self, state: KeyState, key: Key) -> (r: Vec<Message>)
        ensures
            r@ == input_response(Message::KeyboardInputReceived(state, key)),
    {
        let pressed = match state {
            KeyState::Pressed => true,
            KeyState::Released => false,
        };
        let action = match key {
            Key::W => Some(if pressed { CameraAction::TranslateForwardBegin } else { CameraAction::TranslateForwardEnd }),
            Key::S => Some(if pressed { CameraAction::TranslateBackwardBegin } else { CameraAction::TranslateBackwardEnd }),
            Key::D => Some(if pressed { CameraAction::TranslateRightBegin } else { CameraAction::TranslateRightEnd }),
            Key::A => Some(if pressed { CameraAction::TranslateLeftBegin } else { CameraAction::TranslateLeftEnd }),
            Key::Q => Some(if pressed { CameraAction::TwistLeftBegin } else { CameraAction::TwistLeftEnd }),
            Key::E => Some(if pressed { CameraAction::TwistRightBegin } else { CameraAction::TwistRightEnd }),
            Key::Left => Some(if pressed { CameraAction::RotateLeftBegin } else { CameraAction::RotateLeftEnd }),
            Key::Right => Some(if pressed { CameraAction::RotateRightBegin } else { CameraAction::RotateRightEnd }),
            Key::Up => Some(if pressed { CameraAction::RotateUpBegin } else { CameraAction::RotateUpEnd }),
            Key::Down => Some(if pressed { CameraAction::RotateDownBegin } else { CameraAction::RotateDownEnd }),
            Key::Other => None,
        };
        let mut response: Vec<Message> = Vec::new();
        if let Some(action) = action {
            response.push(Message::CameraCommand(action));
        }
        proof {
            assert(response@ =~= input_response(Message::KeyboardInputReceived(state, key)));
        }
        response
    }

    /// The answers to a batch of messages: one camera command per bound key event.
    pub fn respond(&self, messages: &[Message]) -> (r: Vec<Message>)
        ensures
            r@ == input_responses(messages@),
    {
        let mut response: Vec<Message> = Vec::new();
        let mut i: usize = 0;
        while i < messages.len()
            invariant
                i <= messages@.len(),
                response@ == input_responses(messages@.take(i as int)),
            decreases messages@.len() - i,
        {
            let message = messages[i];
            match message {
                Message::KeyboardInputReceived(state, key) => {
                    let mut answer = self.handle_keyboard_input(state, key);
                    response.append(&mut answer);
                },
                _ => {},
            }
            proof {
                let next = messages@.take(i + 1);
                assert(next.drop_last() =~= messages@.take(i as int));
                assert(next.last() == message);
            }
            i = i + 1;
        }
        proof {
            assert(messages@.take(messages@.len() as int) =~= messages@);
        }
        response
    }
}

impl MessageReceiver for InputManager {
    fn process_messages(&mut self, messages: &[Message]) -> Vec<Message> {
        self.respond(messages)
    }
}

} // verus!
