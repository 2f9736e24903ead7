//! Input translator: converts one per-tick sample of host input state —
//! mouse, keyboard and speed-mode events, each already freed of its foreign
//! sentinel encoding — into emulator commands, and forwards them over the
//! command channel with a non-blocking, best-effort send.
//!
//! The host's advisory input lock and the raw sentinel reads live in the
//! adapter that owns the foreign boundary; it acquires the lock, samples the
//! state once, and hands the sample here.

use vstd::prelude::*;

verus! {

use crate::channel::channel_send;

/// How mouse position readings are interpreted.
#[derive(Clone, Copy, Debug, PartialEq, Eq)]
pub enum MouseMode {
    /// Forward clamped 16-bit signed deltas; suppress a zero delta.
    RelativeHw,
    /// Forward clamped 16-bit unsigned absolute positions.
    Absolute,
    /// Forward no motion at all.
    Disabled,
}

/// Named emulator speed modes selected by host speed events.
#[derive(Clone, Copy, Debug, PartialEq, Eq)]
pub enum EmulatorSpeed {
    /// Accurate timing.
    Accurate,
    /// Dynamic/adaptive timing.
    Dynamic,
    /// Uncapped execution.
    Uncapped,
    /// Video-locked timing.
    Video,
}

/// The keymap every forwarded key event is tagged with.
#[derive(Clone, Copy, Debug, PartialEq, Eq)]
pub enum Keymap {
    Universal,
}

/// A key transition with its scancode and keymap.
#[derive(Clone, Copy, Debug, PartialEq, Eq)]
pub enum KeyEvent {
    KeyUp(u8, Keymap),
    KeyDown(u8, Keymap),
}

/// A command forwarded to the emulation core's command intake.
#[derive(Clone, Copy, Debug, PartialEq, Eq)]
pub enum EmulatorCommand {
    MouseUpdateRelative { relx: i16, rely: i16, btn: Option<bool> },
    MouseUpdateAbsolute { x: u16, y: u16 },
    KeyEvent(KeyEvent),
    SetSpeed(EmulatorSpeed),
}

/// A mouse position reading, as sampled for the configured mouse mode.
#[derive(Clone, Copy, Debug, PartialEq, Eq)]
pub enum MousePositionReading {
    /// A relative motion delta.
    Delta(i32, i32),
    /// An absolute position.
    Position(i32, i32),
}

/// A pending key event reading: raw code and raw state, where state zero
/// means released and any other value means pressed.
#[derive(Clone, Copy, Debug, PartialEq, Eq)]
pub struct KeyReading {
    pub code: i32,
    pub state: i32,
}

/// One consistent per-tick sample of host input state. A `None` stands for
/// the host's "no data" sentinel on that source.
#[derive(Clone, Copy, Debug, PartialEq, Eq)]
pub struct InputSample {
    /// Present when a button-state reading is available.
    pub mouse_button: Option<bool>,
    /// Present when a position reading is available; absent as well when the
    /// mouse mode is disabled, since then nothing is read.
    pub mouse_position: Option<MousePositionReading>,
    /// Present when a key event is pending.
    pub key: Option<KeyReading>,
    /// Present when a speed-change request is pending: its raw code.
    pub speed: Option<i32>,
}

/// `v` saturated into `i16` range.
pub open spec fn spec_clamp_to_i16(v: int) -> i16 {
    if v < i16::MIN {
        i16::MIN
    } else if v > i16::MAX {
        i16::MAX
    } else {
        v as i16
    }
}

/// `v` saturated into `u16` range.
pub open spec fn spec_clamp_to_u16(v: int) -> u16 {
    if v < 0 {
        0u16
    } else if v > u16::MAX {
        u16::MAX
    } else {
        v as u16
    }
}

/// `v` saturated into `u8` range.
pub open spec fn spec_clamp_to_u8(v: int) -> u8 {
    if v < 0 {
        0u8
    } else if v > u8::MAX {
        u8::MAX
    } else {
        v as u8
    }
}

/// Saturates a raw reading at the bounds of `i16` rather than wrapping.
pub fn clamp_i32_to_i16(value: i32) -> (r: i16)
    ensures
        r == spec_clamp_to_i16(value as int),
{
    if value < i16::MIN as i32 {
        i16::MIN
    } else if value > i16::MAX as i32 {
        i16::MAX
    } else {
        value as i16
    }
}

/// Saturates a raw reading at the bounds of `u16` rather than wrapping.
pub fn clamp_i32_to_u16(value: i32) -> (r: u16)
    ensures
        r == spec_clamp_to_u16(value as int),
{
    if value < 0 {
        0
    } else if value > u16::MAX as i32 {
        u16::MAX
    } else {
        value as u16
    }
}

/// Saturates a raw reading at the bounds of `u8` rather than wrapping.
pub fn clamp_i32_to_u8(value: i32) -> (r: u8)
    ensures
        r == spec_clamp_to_u8(value as int),
{
    if value < 0 {
        0
    } else if value > u8::MAX as i32 {
        u8::MAX
    } else {
        value as u8
    }
}

/// Command forwarded for a button-state reading: a relative update with zero
/// displacement carrying the button state, reporting button edges without
/// motion.
pub open spec fn button_commands(button: Option<bool>) -> Seq<EmulatorCommand> {
    match button {
        Some(pressed) => seq![
            EmulatorCommand::MouseUpdateRelative { relx: 0i16, rely: 0i16, btn: Some(pressed) },
        ],
        None => Seq::empty(),
    }
}

/// Command forwarded for a position reading under the given mouse mode: a
/// clamped delta in relative-hardware mode (suppressed entirely when both
/// axes are zero), a clamped absolute position in absolute mode, and nothing
/// in disabled mode or when the reading does not match the mode.
pub open spec fn motion_commands(mode: MouseMode, position: Option<MousePositionReading>) -> Seq<
    EmulatorCommand,
> {
    match (mode, position) {
        (MouseMode::RelativeHw, Some(MousePositionReading::Delta(dx, dy))) => {
            if dx == 0 && dy == 0 {
                Seq::empty()
            } else {
                seq![
                    EmulatorCommand::MouseUpdateRelative {
                        relx: spec_clamp_to_i16(dx as int),
                        rely: spec_clamp_to_i16(dy as int),
                        btn: None,
                    },
                ]
            }
        },
        (MouseMode::Absolute, Some(MousePositionReading::Position(px, py))) => {
            seq![
                EmulatorCommand::MouseUpdateAbsolute {
                    x: spec_clamp_to_u16(px as int),
                    y: spec_clamp_to_u16(py as int),
                },
            ]
        },
        _ => Seq::empty(),
    }
}

/// All commands forwarded for the mouse portion of one sample.
pub open spec fn mouse_commands(
    mode: MouseMode,
    button: Option<bool>,
    position: Option<MousePositionReading>,
) -> Seq<EmulatorCommand> {
    button_commands(button) + motion_commands(mode, position)
}

/// Command forwarded for a pending key event: the code clamped into an
/// unsigned 8-bit scancode, released exactly when the raw state is zero,
/// tagged with the universal keymap.
pub open spec fn keyboard_commands(key: Option<KeyReading>) -> Seq<EmulatorCommand> {
    match key {
        Some(reading) => {
            if reading.state == 0 {
                seq![
                    EmulatorCommand::KeyEvent(
                        KeyEvent::KeyUp(spec_clamp_to_u8(reading.code as int), Keymap::Universal),
                    ),
                ]
            } else {
                seq![
                    EmulatorCommand::KeyEvent(
                        KeyEvent::KeyDown(spec_clamp_to_u8(reading.code as int), Keymap::Universal),
                    ),
                ]
            }
        },
        None => Seq::empty(),
    }
}

/// The speed mode selected by a raw speed code, when the code is one of the
/// recognized sentinels.
pub open spec fn spec_speed_of(code: i32) -> Option<EmulatorSpeed> {
    if code == -2 {
        Some(EmulatorSpeed::Accurate)
    } else if code == 7 {
        Some(EmulatorSpeed::Dynamic)
    } else if code == -1 {
        Some(EmulatorSpeed::Uncapped)
    } else if code == 9 {
        Some(EmulatorSpeed::Video)
    } else {
        None
    }
}

/// Command forwarded for a pending speed-change request; an unrecognized
/// code is discarded without forwarding anything.
pub open spec fn speed_commands(speed: Option<i32>) -> Seq<EmulatorCommand> {
    match speed {
        Some(code) => match spec_speed_of(code) {
            Some(mode) => seq![EmulatorCommand::SetSpeed(mode)],
            None => Seq::empty(),
        },
        None => Seq::empty(),
    }
}

/// All commands forwarded for one sample, in forwarding order: mouse first,
/// then keyboard, then speed.
pub open spec fn input_commands(mode: MouseMode, sample: InputSample) -> Seq<EmulatorCommand> {
    mouse_commands(mode, sample.mouse_button, sample.mouse_position) + keyboard_commands(sample.key)
        + speed_commands(sample.speed)
}

/// Input translator state: the command channel's sending end and the
/// configured mouse mode.
pub struct InputReceiver {
    pub cmd_sender: crossbeam_channel::Sender<EmulatorCommand>,
    pub mouse_mode: MouseMode,
}

impl InputReceiver {
    /// A translator forwarding into `cmd_sender` under `mouse_mode`.
    pub fn new(cmd_sender: crossbeam_channel::Sender<EmulatorCommand>, mouse_mode: MouseMode) -> (r:
        InputReceiver)
        ensures
            r.mouse_mode == mouse_mode,
            r.cmd_sender == cmd_sender,
    {
        InputReceiver { cmd_sender, mouse_mode }
    }

    /// The configured mouse mode; the boundary adapter consults it to know
    /// which position reading to sample.
    pub fn mouse_mode(&self) -> (mode: MouseMode)
        ensures
            mode == self.mouse_mode,
    {
        self.mouse_mode
    }

    /// Forwards each command over the channel, best-effort, in order.
    fn forward(&self, commands: &Vec<EmulatorCommand>) {
        for i in 0..commands.len() {
            let cmd = commands[i];
            channel_send(&self.cmd_sender, cmd);
        }
    }

    /// Translates and forwards the mouse portion of a sample; returns the
    /// forwarded commands in order.
    pub fn handle_mouse(&self, button: Option<bool>, position: Option<MousePositionReading>) -> (r:
        Vec<EmulatorCommand>)
        ensures
            r@ == mouse_commands(self.mouse_mode, button, position),
    {
        let mut commands: Vec<EmulatorCommand> = Vec::new();
        if let Some(pressed) = button {
            commands.push(
                EmulatorCommand::MouseUpdateRelative { relx: 0, rely: 0, btn: Some(pressed) },
            );
        }
        match (self.mouse_mode, position) {
            (MouseMode::RelativeHw, Some(MousePositionReading::Delta(dx, dy))) => {
                if dx != 0 || dy != 0 {
                    commands.push(
                        EmulatorCommand::MouseUpdateRelative {
                            relx: clamp_i32_to_i16(dx),
                            rely: clamp_i32_to_i16(dy),
                            btn: None,
                        },
                    );
                }
            },
            (MouseMode::Absolute, Some(MousePositionReading::Position(px, py))) => {
                commands.push(
                    EmulatorCommand::MouseUpdateAbsolute {
                        x: clamp_i32_to_u16(px),
                        y: clamp_i32_to_u16(py),
                    },
                );
            },
            _ => {},
        }
        proof {
            assert(commands@ =~= mouse_commands(self.mouse_mode, button, position));
        }
        self.forward(&commands);
        commands
    }

    /// Translates and forwards a pending key event; returns the forwarded
    /// commands in order.
    pub fn handle_keyboard(&self, key: Option<KeyReading>) -> (r: Vec<EmulatorCommand>)
        ensures
            r@ == keyboard_commands(key),
    {
        let mut commands: Vec<EmulatorCommand> = Vec::new();
        if let Some(reading) = key {
            let scancode = clamp_i32_to_u8(reading.code);
            let event = if reading.state == 0 {
                KeyEvent::KeyUp(scancode, Keymap::Universal)
            } else {
                KeyEvent::KeyDown(scancode, Keymap::Universal)
            };
            commands.push(EmulatorCommand::KeyEvent(event));
        }
        proof {
            assert(commands@ =~= keyboard_commands(key));
        }
        self.forward(&commands);
        commands
    }

    /// Translates and forwards a pending speed-change request; an
    /// unrecognized code is discarded. Returns the forwarded commands.
    pub fn handle_speed(&self, speed: Option<i32>) -> (r: Vec<EmulatorCommand>)
        ensures
            r@ == speed_commands(speed),
    {
        let mut commands: Vec<EmulatorCommand> = Vec::new();
        if let Some(code) = speed {
            let mode = if code == -2 {
                Some(EmulatorSpeed::Accurate)
            } else if code == 7 {
                Some(EmulatorSpeed::Dynamic)
            } else if code == -1 {
                Some(EmulatorSpeed::Uncapped)
            } else if code == 9 {
                Some(EmulatorSpeed::Video)
            } else {
                None
            };
            if let Some(mode) = mode {
                commands.push(EmulatorCommand::SetSpeed(mode));
            }
        }
        proof {
            assert(commands@ =~= speed_commands(speed));
        }
        self.forward(&commands);
        commands
    }

    /// Translates one full sample, forwarding mouse commands first, then the
    /// keyboard command, then the speed command; returns everything
    /// forwarded, in forwarding order.
    pub fn tick(&self, sample: InputSample) -> (r: Vec<EmulatorCommand>)
        ensures
            r@ == input_commands(self.mouse_mode, sample),
    {
        let mut commands = self.handle_mouse(sample.mouse_button, sample.mouse_position);
        let mut from_keyboard = self.handle_keyboard(sample.key);
        let mut from_speed = self.handle_speed(sample.speed);
        commands.append(&mut from_keyboard);
        commands.append(&mut from_speed);
        commands
    }
}

} // verus!
