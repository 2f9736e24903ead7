//! Snapshot control protocol: the request/response handshake by which the
//! host asks for a save or restore of emulator state.
//!
//! The host side exposes two polled values — a command-kind sentinel and a
//! request identifier — and three completion callbacks keyed by the same
//! identifier. This module decides, from one polled pair, whether a valid
//! command is pending, and prepares error messages for the null-terminated
//! wire representation; the foreign calls themselves stay with the boundary
//! adapter.

use vstd::prelude::*;

verus! {

/// What a snapshot command asks for.
#[derive(Clone, Copy, Debug, PartialEq, Eq, Structural)]
pub enum SnapshotCommandKind {
    Save,
    Load,
}

/// A pending snapshot command with its correlation identifier; the
/// identifier is never zero, since zero is the wire's "no command" value.
#[derive(Clone, Copy, Debug, PartialEq, Eq, Structural)]
pub struct SnapshotCommand {
    pub kind: SnapshotCommandKind,
    pub request_id: u32,
}

/// The command encoded by a polled (kind, identifier) pair: none when the
/// kind is zero or unrecognized, or when the identifier is zero.
pub open spec fn spec_snapshot_command(kind: i32, request_id: u32) -> Option<SnapshotCommand> {
    if kind == 0 || request_id == 0 {
        None
    } else if kind == 1 {
        Some(SnapshotCommand { kind: SnapshotCommandKind::Save, request_id })
    } else if kind == 2 {
        Some(SnapshotCommand { kind: SnapshotCommandKind::Load, request_id })
    } else {
        None
    }
}

/// Decodes one polled (kind, identifier) pair. A zero kind and a zero
/// identifier both mean "no command pending" and are treated identically: a
/// command with a kind set but the identifier still zero is discarded as
/// invalid, never partially honored. An unrecognized kind is likewise
/// discarded.
pub fn take_snapshot_command(kind: i32, request_id: u32) -> (cmd: Option<SnapshotCommand>)
    ensures
        cmd == spec_snapshot_command(kind, request_id),
        kind == 0 ==> cmd is None,
        request_id == 0 ==> cmd is None,
        cmd matches Some(c) ==> c.request_id == request_id && request_id != 0,
{
    if kind == 0 {
        return None;
    }
    if request_id == 0 {
        return None;
    }
    match kind {
        1 => Some(SnapshotCommand { kind: SnapshotCommandKind::Save, request_id }),
        2 => Some(SnapshotCommand { kind: SnapshotCommandKind::Load, request_id }),
        _ => None,
    }
}

/// Replaces every null byte of an error message with a space, so the
/// message can cross the foreign boundary as a null-terminated string
/// without truncation; every other byte is kept as it is.
pub fn sanitize_error_bytes(message: &Vec<u8>) -> (sanitized: Vec<u8>)
    ensures
        sanitized@.len() == message@.len(),
        forall|i: int|
            0 <= i < message@.len() ==> sanitized@[i] == (if message@[i] == 0u8 {
                32u8
            } else {
                message@[i]
            }),
        forall|i: int| 0 <= i < sanitized@.len() ==> sanitized@[i] != 0u8,
{
    let mut sanitized: Vec<u8> = Vec::new();
    let mut idx: usize = 0;
    while idx < message.len()
        invariant
            idx <= message@.len(),
            sanitized@.len() == idx,
            forall|i: int|
                0 <= i < idx ==> sanitized@[i] == (if message@[i] == 0u8 {
                    32u8
                } else {
                    message@[i]
                }),
            forall|i: int| 0 <= i < idx ==> sanitized@[i] != 0u8,
        decreases message@.len() - idx,
    {
        let byte = message[idx];
        if byte == 0 {
            sanitized.push(32);
        } else {
            sanitized.push(byte);
        }
        idx += 1;
    }
    sanitized
}

} // verus!
