use rigid_sim::camera::{CameraAction, CameraController, CameraMotion};
use rigid_sim::input_manager::InputManager;
use rigid_sim::message::{Key, KeyState, Message, MessageReceiver};

#[test]
fn key_press_and_release_map_to_camera_commands() {
    let input = InputManager::new();
    assert_eq!(
        input.handle_keyboard_input(KeyState::Pressed, Key::W),
        vec![Message::CameraCommand(CameraAction::TranslateForwardBegin)]
    );
    assert_eq!(
        input.handle_keyboard_input(KeyState::Released, Key::W),
        vec![Message::CameraCommand(CameraAction::TranslateForwardEnd)]
    );
    assert_eq!(
        input.handle_keyboard_input(KeyState::Pressed, Key::Q),
        vec![Message::CameraCommand(CameraAction::TwistLeftBegin)]
    );
    assert_eq!(
        input.handle_keyboard_input(KeyState::Released, Key::Down),
        vec![Message::CameraCommand(CameraAction::RotateDownEnd)]
    );
    assert_eq!(input.handle_keyboard_input(KeyState::Pressed, Key::Other), vec![]);
}

#[test]
fn input_manager_answers_only_keyboard_messages() {
    let mut input = InputManager::new();
    let messages = vec![
        Message::WindowClosed,
        Message::KeyboardInputReceived(KeyState::Pressed, Key::A),
        Message::ReloadScene { index: 1 },
        Message::KeyboardInputReceived(KeyState::Pressed, Key::Other),
        Message::KeyboardInputReceived(KeyState::Released, Key::Right),
    ];
    assert_eq!(
        input.process_messages(&messages),
        vec![
            Message::CameraCommand(CameraAction::TranslateLeftBegin),
            Message::CameraCommand(CameraAction::RotateRightEnd),
        ]
    );
}

#[test]
fn camera_controller_tracks_begin_and_end() {
    let mut controller = CameraController::new();
    assert!(!controller.is_active(CameraMotion::TranslateForward));
    controller.perform_action(CameraAction::TranslateForwardBegin);
    controller.perform_action(CameraAction::TwistRightBegin);
    assert!(controller.is_active(CameraMotion::TranslateForward));
    assert!(controller.is_active(CameraMotion::TwistRight));
    assert!(!controller.is_active(CameraMotion::TwistLeft));
    controller.perform_action(CameraAction::TranslateForwardEnd);
    assert!(!controller.is_active(CameraMotion::TranslateForward));
    assert!(controller.is_active(CameraMotion::TwistRight));
}

#[test]
fn camera_controller_processes_commands_and_answers_nothing() {
    let mut controller = CameraController::new();
    let messages = vec![
        Message::CameraCommand(CameraAction::RotateUpBegin),
        Message::WindowClosed,
        Message::CameraCommand(CameraAction::RotateLeftBegin),
        Message::CameraCommand(CameraAction::RotateUpEnd),
    ];
    assert!(controller.process_messages(&messages).is_empty());
    assert!(!controller.is_active(CameraMotion::RotateUp));
    assert!(controller.is_active(CameraMotion::RotateLeft));
}
