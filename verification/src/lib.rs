//! Host-bridge layer of a hardware emulator: adapts a tick-driven emulation
//! core to an event-driven host runtime.
//!
//! The host itself (display surface, audio device, input events, persistent
//! storage) is reached through a foreign-call surface that lives outside this
//! library; every decision taken between those calls — audio pacing, frame
//! dispatch, input translation, media hotplug, the snapshot handshake and
//! storage-handle validation — is implemented and verified here, over plain
//! values sampled at the boundary.

pub mod audio;
pub mod cdrom;
pub mod channel;
pub mod control;
pub mod disk;
pub mod framebuffer;
pub mod input;
