//! The camera controller's key-driven state: which motions are under way.

use crate::message::{Message, MessageReceiver};
use vstd::prelude::*;

verus! {

/// A command for the camera: a motion begins or ends.
#[derive(Clone, Copy, PartialEq, Eq, Debug, Structural)]
pub enum CameraAction {
    TranslateForwardBegin,
    TranslateForwardEnd,
    TranslateBackwardBegin,
    TranslateBackwardEnd,
    TranslateLeftBegin,
    TranslateLeftEnd,
    TranslateRightBegin,
    TranslateRightEnd,
    RotateRightBegin,
    RotateRightEnd,
    RotateLeftBegin,
    RotateLeftEnd,
    RotateUpBegin,
    RotateUpEnd,
    RotateDownBegin,
    RotateDownEnd,
    TwistRightBegin,
    TwistRightEnd,
    TwistLeftBegin,
    TwistLeftEnd,
}

/// A continuous camera motion that is either under way or not.
#[derive(Clone, Copy, PartialEq, Eq, Debug, Structural)]
pub enum CameraMotion {
    TranslateForward,
    TranslateBackward,
    TranslateLeft,
    TranslateRight,
    RotateRight,
    RotateLeft,
    RotateUp,
    RotateDown,
    TwistRight,
    TwistLeft,
}

/// The motion that an action starts or stops.
pub open spec fn action_motion(action: CameraAction) -> CameraMotion {
    match action {
        CameraAction::TranslateForwardBegin | CameraAction::TranslateForwardEnd => CameraMotion::TranslateForward,
        CameraAction::TranslateBackwardBegin | CameraAction::TranslateBackwardEnd => CameraMotion::TranslateBackward,
        CameraAction::TranslateLeftBegin | CameraAction::TranslateLeftEnd => CameraMotion::TranslateLeft,
        CameraAction::TranslateRightBegin | CameraAction::TranslateRightEnd => CameraMotion::TranslateRight,
        CameraAction::RotateRightBegin | CameraAction::RotateRightEnd => CameraMotion::RotateRight,
        CameraAction::RotateLeftBegin | CameraAction::RotateLeftEnd => CameraMotion::RotateLeft,
        CameraAction::RotateUpBegin | CameraAction::RotateUpEnd => CameraMotion::RotateUp,
        CameraAction::RotateDownBegin | CameraAction::RotateDownEnd => CameraMotion::RotateDown,
        CameraAction::TwistRightBegin | CameraAction::TwistRightEnd => CameraMotion::TwistRight,
        CameraAction::TwistLeftBegin | CameraAction::TwistLeftEnd => CameraMotion::TwistLeft,
    }
}

/// Whether an action starts its motion (rather than stopping it).
pub open spec fn action_begins(action: CameraAction) -> bool {
    match action {
        CameraAction::TranslateForwardBegin | CameraAction::TranslateBackwardBegin
        | CameraAction::TranslateLeftBegin | CameraAction::TranslateRightBegin
        | CameraAction::RotateRightBegin | CameraAction::RotateLeftBegin
        | CameraAction::RotateUpBegin | CameraAction::RotateDownBegin
        | CameraAction::TwistRightBegin | CameraAction::TwistLeftBegin => true,
        _ => false,
    }
}

/// Tracks, for each camera motion, whether it is under way.
pub struct CameraController {
    translate_forward: bool,
    translate_backward: bool,
    translate_left: bool,
    translate_right: bool,
    rotate_up: bool,
    rotate_down: bool,
    rotate_left: bool,
    rotate_right: bool,
    twist_right: bool,
    twist_left: bool,
}

impl CameraController {
    /// Whether the motion is under way.
    pub closed spec fn active(&self, motion: CameraMotion) -> bool {
        match motion {
            CameraMotion::TranslateForward => self.translate_forward,
            CameraMotion::TranslateBackward => self.translate_backward,
            CameraMotion::TranslateLeft => self.translate_left,
            CameraMotion::TranslateRight => self.translate_right,
            CameraMotion::RotateRight => self.rotate_right,
            CameraMotion::RotateLeft => self.rotate_left,
            CameraMotion::RotateUp => self.rotate_up,
            CameraMotion::RotateDown => self.rotate_down,
            CameraMotion::TwistRight => self.twist_right,
            CameraMotion::TwistLeft => self.twist_left,
        }
    }

    /// A controller with no motion under way.
    pub fn new() -> (r: Self)
        ensures
            forall|m: CameraMotion| !r.active(m),
    {
        CameraController {
            translate_forward: false,
            translate_backward: false,
            translate_left: false,
            translate_right: false,
            rotate_up: false,
            rotate_down: false,
            rotate_left: false,
            rotate_right: false,
            twist_right: false,
            twist_left: false,
        }
    }

    pub fn is_active(&self, motion: CameraMotion) -> (r: bool)
        ensures
            r == self.active(motion),
    {
        match motion {
            CameraMotion::TranslateForward => self.translate_forward,
            CameraMotion::TranslateBackward => self.translate_backward,
            CameraMotion::TranslateLeft => self.translate_left,
            CameraMotion::TranslateRight => self.translate_right,
            CameraMotion::RotateRight => self.rotate_right,
            CameraMotion::RotateLeft => self.rotate_left,
            CameraMotion::RotateUp => self.rotate_up,
            CameraMotion::RotateDown => self.rotate_down,
            CameraMotion::TwistRight => self.twist_right,
            CameraMotion::TwistLeft => self.twist_left,
        }
    }

    /// Starts or stops the action's motion; every other motion stays as it was.
    pub fn perform_action(&mut self, action: CameraAction)
        ensures
            forall|m: CameraMotion|
                #[trigger] final(self).active(m) == if m == action_motion(action) {
                    action_begins(action)
                } else {
                    old(self).active(m)
                },
    {
        match action {
            CameraAction::TranslateForwardBegin => self.translate_forward = true,
            CameraAction::TranslateForwardEnd => self.translate_forward = false,
            CameraAction::TranslateBackwardBegin => self.translate_backward = true,
            CameraAction::TranslateBackwardEnd => self.translate_backward = false,
            CameraAction::TranslateLeftBegin => self.translate_left = true,
            CameraAction::TranslateLeftEnd => self.translate_left = false,
            CameraAction::TranslateRightBegin => self.translate_right = true,
            CameraAction::TranslateRightEnd => self.translate_right = false,
            CameraAction::RotateUpBegin => self.rotate_up = true,
            CameraAction::RotateUpEnd => self.rotate_up = false,
            CameraAction::RotateDownBegin => self.rotate_down = true,
            CameraAction::RotateDownEnd => self.rotate_down = false,
            CameraAction::RotateLeftBegin => self.rotate_left = true,
            CameraAction::RotateLeftEnd => self.rotate_left = false,
            CameraAction::RotateRightBegin => self.rotate_right = true,
            CameraAction::RotateRightEnd => self.rotate_right = false,
            CameraAction::TwistLeftBegin => self.twist_left = true,
            CameraAction::TwistLeftEnd => self.twist_left = false,
            CameraAction::TwistRightBegin => self.twist_right = true,
            CameraAction::TwistRightEnd => self.twist_right = false,
        }
    }
}

impl MessageReceiver for CameraController {
    /// Performs every camera command in order; answers nothing.
    fn process_messages(&mut self, messages: &[Message]) -> Vec<Message> {
        let mut i: usize = 0;
        while i < messages.len()
            decreases messages@.len() - i,
        {
            if let Message::CameraCommand(action) = messages[i] {
                self.perform_action(action);
            }
            i = i + 1;
        }
        Vec::new()
    }
}

} // verus!
