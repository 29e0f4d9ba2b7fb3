//! The operator's endpoint: each connection carries one command behind a
//! four-byte length, and each command is one event for the session.

use vstd::prelude::*;
use crate::host::{Event, ServerCmd};
use crate::protocol::AllowUndercurrent;

verus! {

/// Commands up to this size are read into a fixed buffer.
pub const STATIC_BUF_SIZE: usize = 512;

/// The event that a command of the operator stands for.
pub open spec fn event_of(cmd: ServerCmd) -> Event {
    match cmd {
        ServerCmd::SetBatteryId(battery_id) => Event::BattID(battery_id),
        ServerCmd::SetSerialDev(dev) => Event::SetSerialDevice(dev),
        ServerCmd::SetCutoffMillis(millivolts) => Event::SetCutoff(millivolts),
        ServerCmd::StartTest => Event::StartTest,
        ServerCmd::CancelTest => Event::CancelTest,
        ServerCmd::ShutDown => Event::Shutdown,
        ServerCmd::ClearFault => Event::ClearFault,
        ServerCmd::AllowUndercurrent => Event::UnderCurrentResponse(AllowUndercurrent::Yes),
        ServerCmd::DisallowUndercurrent => Event::UnderCurrentResponse(AllowUndercurrent::No),
    }
}

/// The command that allows or disallows a current below the envelope.
pub open spec fn undercurrent_cmd(allow: bool) -> ServerCmd {
    if allow {
        ServerCmd::AllowUndercurrent
    } else {
        ServerCmd::DisallowUndercurrent
    }
}

/// A length as four bytes, most significant first.
pub open spec fn length_bytes(len: nat) -> Seq<u8> {
    seq![
        (len / 0x100_0000 % 0x100) as u8,
        (len / 0x1_0000 % 0x100) as u8,
        (len / 0x100 % 0x100) as u8,
        (len % 0x100) as u8,
    ]
}

/// The length that four bytes stand for, most significant first.
pub open spec fn length_of(bytes: Seq<u8>) -> nat {
    (bytes[0] * 0x100_0000 + bytes[1] * 0x1_0000 + bytes[2] * 0x100 + bytes[3]) as nat
}

/// Turns a command of the operator into the event for the session.
pub fn for_each_conn(cmd: ServerCmd) -> (event: Event)
    ensures
        event == event_of(cmd),
{
    match cmd {
        ServerCmd::SetBatteryId(battery_id) => Event::BattID(battery_id),
        ServerCmd::SetSerialDev(dev) => Event::SetSerialDevice(dev),
        ServerCmd::SetCutoffMillis(millivolts) => Event::SetCutoff(millivolts),
        ServerCmd::StartTest => Event::StartTest,
        ServerCmd::CancelTest => Event::CancelTest,
        ServerCmd::ShutDown => Event::Shutdown,
        ServerCmd::ClearFault => Event::ClearFault,
        ServerCmd::AllowUndercurrent => Event::UnderCurrentResponse(AllowUndercurrent::Yes),
        ServerCmd::DisallowUndercurrent => Event::UnderCurrentResponse(AllowUndercurrent::No),
    }
}

/// The command of the `undercurrent` subcommand, with or without its
/// switch.
pub fn undercurrent_command(allow: bool) -> (cmd: ServerCmd)
    ensures
        cmd == undercurrent_cmd(allow),
        event_of(cmd) == Event::UnderCurrentResponse(
            if allow {
                AllowUndercurrent::Yes
            } else {
                AllowUndercurrent::No
            },
        ),
{
    if allow {
        ServerCmd::AllowUndercurrent
    } else {
        ServerCmd::DisallowUndercurrent
    }
}

/// The four bytes that announce a payload of `len` bytes.
pub fn length_prefix(len: u32) -> (r: [u8; 4])
    ensures
        r@ == length_bytes(len as nat),
        length_of(r@) == len,
{
    let r: [u8; 4] = [
        (len / 0x100_0000 % 0x100) as u8,
        (len / 0x1_0000 % 0x100) as u8,
        (len / 0x100 % 0x100) as u8,
        (len % 0x100) as u8,
    ];
    proof {
        assert(r@ =~= length_bytes(len as nat));
    }
    r
}

/// The payload length that four bytes announce.
pub fn announced_length(prefix: [u8; 4]) -> (len: u32)
    ensures
        len == length_of(prefix@),
        length_bytes(len as nat) == prefix@,
{
    let len: u32 = (prefix[0] as u32) * 0x100_0000 + (prefix[1] as u32) * 0x1_0000 + (
    prefix[2] as u32) * 0x100 + prefix[3] as u32;
    proof {
        assert(length_bytes(len as nat) =~= prefix@);
    }
    len
}

/// Whether a command of `to_read` bytes fits the fixed read buffer.
pub fn fits_static_buffer(to_read: u32) -> (r: bool)
    ensures
        r <==> to_read <= STATIC_BUF_SIZE,
{
    to_read as usize <= STATIC_BUF_SIZE
}

} // verus!
