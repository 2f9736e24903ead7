use frontend_im::input::{
    clamp_i32_to_i16, clamp_i32_to_u16, clamp_i32_to_u8, EmulatorCommand, EmulatorSpeed,
    InputReceiver, InputSample, KeyEvent, KeyReading, Keymap, MouseMode, MousePositionReading,
};

fn receiver(
    mode: MouseMode,
) -> (InputReceiver, crossbeam_channel::Receiver<EmulatorCommand>) {
    let (tx, rx) = crossbeam_channel::unbounded();
    (InputReceiver::new(tx, mode), rx)
}

fn empty_sample() -> InputSample {
    InputSample { mouse_button: None, mouse_position: None, key: None, speed: None }
}

#[test]
fn zero_delta_in_relative_mode_forwards_nothing() {
    let (input, rx) = receiver(MouseMode::RelativeHw);
    let sent = input.handle_mouse(None, Some(MousePositionReading::Delta(0, 0)));
    assert!(sent.is_empty());
    assert!(rx.try_recv().is_err());
}

#[test]
fn large_delta_is_clamped_to_i16_range() {
    let (input, rx) = receiver(MouseMode::RelativeHw);
    let sent = input.handle_mouse(None, Some(MousePositionReading::Delta(40000, -40000)));
    let expected = EmulatorCommand::MouseUpdateRelative { relx: 32767, rely: -32768, btn: None };
    assert_eq!(sent, vec![expected]);
    assert_eq!(rx.try_recv().unwrap(), expected);
}

#[test]
fn button_state_is_reported_without_motion() {
    let (input, rx) = receiver(MouseMode::Disabled);
    let sent = input.handle_mouse(Some(true), None);
    let expected = EmulatorCommand::MouseUpdateRelative { relx: 0, rely: 0, btn: Some(true) };
    assert_eq!(sent, vec![expected]);
    assert_eq!(rx.try_recv().unwrap(), expected);
}

#[test]
fn absolute_mode_forwards_clamped_position() {
    let (input, _rx) = receiver(MouseMode::Absolute);
    let sent = input.handle_mouse(None, Some(MousePositionReading::Position(-5, 70000)));
    assert_eq!(sent, vec![EmulatorCommand::MouseUpdateAbsolute { x: 0, y: 65535 }]);
    // An absolute position of zero is still forwarded; only relative-mode
    // zero deltas are suppressed.
    let sent = input.handle_mouse(None, Some(MousePositionReading::Position(0, 0)));
    assert_eq!(sent, vec![EmulatorCommand::MouseUpdateAbsolute { x: 0, y: 0 }]);
}

#[test]
fn disabled_mode_forwards_no_motion() {
    let (input, rx) = receiver(MouseMode::Disabled);
    let sent = input.handle_mouse(None, Some(MousePositionReading::Delta(5, 5)));
    assert!(sent.is_empty());
    assert!(rx.try_recv().is_err());
}

#[test]
fn key_state_zero_means_released() {
    let (input, _rx) = receiver(MouseMode::Disabled);
    let sent = input.handle_keyboard(Some(KeyReading { code: 36, state: 0 }));
    assert_eq!(
        sent,
        vec![EmulatorCommand::KeyEvent(KeyEvent::KeyUp(36, Keymap::Universal))]
    );
    let sent = input.handle_keyboard(Some(KeyReading { code: 36, state: -7 }));
    assert_eq!(
        sent,
        vec![EmulatorCommand::KeyEvent(KeyEvent::KeyDown(36, Keymap::Universal))]
    );
}

#[test]
fn key_code_is_clamped_to_scancode_range() {
    let (input, _rx) = receiver(MouseMode::Disabled);
    let sent = input.handle_keyboard(Some(KeyReading { code: 300, state: 1 }));
    assert_eq!(
        sent,
        vec![EmulatorCommand::KeyEvent(KeyEvent::KeyDown(255, Keymap::Universal))]
    );
}

#[test]
fn speed_sentinels_map_to_named_modes() {
    let (input, _rx) = receiver(MouseMode::Disabled);
    let cases = [
        (-2, EmulatorSpeed::Accurate),
        (7, EmulatorSpeed::Dynamic),
        (-1, EmulatorSpeed::Uncapped),
        (9, EmulatorSpeed::Video),
    ];
    for (code, mode) in cases {
        assert_eq!(input.handle_speed(Some(code)), vec![EmulatorCommand::SetSpeed(mode)]);
    }
}

#[test]
fn unknown_speed_code_is_discarded() {
    let (input, rx) = receiver(MouseMode::Disabled);
    for code in [0, 1, 8, -3, i32::MAX] {
        assert!(input.handle_speed(Some(code)).is_empty());
    }
    assert!(input.handle_speed(None).is_empty());
    assert!(rx.try_recv().is_err());
}

#[test]
fn tick_forwards_mouse_then_keyboard_then_speed() {
    let (input, rx) = receiver(MouseMode::RelativeHw);
    let sample = InputSample {
        mouse_button: Some(false),
        mouse_position: Some(MousePositionReading::Delta(3, -4)),
        key: Some(KeyReading { code: 10, state: 1 }),
        speed: Some(9),
    };
    let sent = input.tick(sample);
    let expected = vec![
        EmulatorCommand::MouseUpdateRelative { relx: 0, rely: 0, btn: Some(false) },
        EmulatorCommand::MouseUpdateRelative { relx: 3, rely: -4, btn: None },
        EmulatorCommand::KeyEvent(KeyEvent::KeyDown(10, Keymap::Universal)),
        EmulatorCommand::SetSpeed(EmulatorSpeed::Video),
    ];
    assert_eq!(sent, expected);
    let received: Vec<EmulatorCommand> = rx.try_iter().collect();
    assert_eq!(received, expected);
}

#[test]
fn empty_sample_forwards_nothing() {
    let (input, rx) = receiver(MouseMode::RelativeHw);
    assert!(input.tick(empty_sample()).is_empty());
    assert!(rx.try_recv().is_err());
}

#[test]
fn clamps_saturate_at_target_bounds() {
    assert_eq!(clamp_i32_to_i16(40000), 32767);
    assert_eq!(clamp_i32_to_i16(-40000), -32768);
    assert_eq!(clamp_i32_to_i16(123), 123);
    assert_eq!(clamp_i32_to_u16(-1), 0);
    assert_eq!(clamp_i32_to_u16(70000), 65535);
    assert_eq!(clamp_i32_to_u16(42), 42);
    assert_eq!(clamp_i32_to_u8(-1), 0);
    assert_eq!(clamp_i32_to_u8(256), 255);
    assert_eq!(clamp_i32_to_u8(200), 200);
}

#[test]
fn mouse_mode_getter_reports_configuration() {
    let (input, _rx) = receiver(MouseMode::Absolute);
    assert_eq!(input.mouse_mode(), MouseMode::Absolute);
}
