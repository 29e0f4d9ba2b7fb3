//! The payloads of the serial link as bytes. A flag or a variant is one tag
//! byte, an integer is a variable-length integer, an optional value is a
//! presence byte followed by the value, and a structure is its fields in
//! order. Every value has exactly one encoding, and only that one is read
//! back.

use vstd::prelude::*;
use crate::protocol::{
    AllowUndercurrent, BIReply, BiCommand, ClearFault, Fault, FaultKind, I2CError, LoadState,
    Measurement, Reset, TiwmError, COMMAND_MAX_SIZE, REPLY_MAX_SIZE,
};
use crate::units::{MilliAmp, MilliVolt};
use crate::varint::{
    lemma_parse_varint, lemma_parsed_is_varint, lemma_varint_len_u16, lemma_varint_len_u64,
    parse_uint, put_uint, take_uint, varint,
};

verus! {

/// The tag of a bus error cause.
pub open spec fn twim_tag(e: TiwmError) -> u8 {
    match e {
        TiwmError::TxBufferTooLong => 0,
        TiwmError::RxBufferTooLong => 1,
        TiwmError::Transmit => 2,
        TiwmError::Receive => 3,
        TiwmError::RAMBufferTooSmall => 4,
        TiwmError::AddressNack => 5,
        TiwmError::DataNack => 6,
        TiwmError::Overrun => 7,
        TiwmError::Timeout => 8,
        TiwmError::Unknown => 9,
    }
}

/// The bytes of a command: one byte per field, 0 for the first variant and
/// 1 for the second.
pub open spec fn command_bytes(c: BiCommand) -> Seq<u8> {
    seq![
        if c.load == LoadState::On { 1u8 } else { 0u8 },
        if c.reset == Reset::Yes { 1u8 } else { 0u8 },
        if c.clear_fault == ClearFault::Yes { 1u8 } else { 0u8 },
        if c.allow_undercurrent == AllowUndercurrent::Yes { 1u8 } else { 0u8 },
    ]
}

/// The bytes of a measurement: voltage, current, timestamp.
pub open spec fn measurement_bytes(m: Measurement) -> Seq<u8> {
    varint(m.vbat.0 as nat) + varint(m.ibat.0 as nat) + varint(m.t as nat)
}

/// The bytes of an optional measurement.
pub open spec fn pending_bytes(m: Option<Measurement>) -> Seq<u8> {
    match m {
        None => seq![0u8],
        Some(m) => seq![1u8] + measurement_bytes(m),
    }
}

/// The bytes of a failed sensor operation: the operation, then the cause.
pub open spec fn i2c_bytes(e: I2CError) -> Seq<u8> {
    match e {
        I2CError::InaVinCurrent(t) => seq![0u8, twim_tag(t)],
        I2CError::InaVinVoltage(t) => seq![1u8, twim_tag(t)],
        I2CError::InaVinConfig(t) => seq![2u8, twim_tag(t)],
        I2CError::InaVinId(t) => seq![3u8, twim_tag(t)],
    }
}

/// The bytes of a fault kind.
pub open spec fn kind_bytes(k: FaultKind) -> Seq<u8> {
    match k {
        FaultKind::I2C(e) => seq![0u8] + i2c_bytes(e),
        FaultKind::Undercurrent => seq![1u8],
        FaultKind::NoBattery => seq![2u8],
        FaultKind::Overcurrent => seq![3u8],
    }
}

/// The bytes of a fault: its kind, then its time.
pub open spec fn fault_bytes(f: Fault) -> Seq<u8> {
    kind_bytes(f.kind) + varint(f.time as nat)
}

/// The bytes of a reply's fault field.
pub open spec fn status_bytes(s: Result<(), Fault>) -> Seq<u8> {
    match s {
        Ok(()) => seq![0u8],
        Err(f) => seq![1u8] + fault_bytes(f),
    }
}

/// The bytes of a reply: the optional measurement, then the fault field.
pub open spec fn reply_bytes(r: BIReply) -> Seq<u8> {
    pending_bytes(r.measurement) + status_bytes(r.fault)
}

/// Reads a bus error cause from its tag.
pub open spec fn parse_twim(tag: u8) -> Option<TiwmError> {
    if tag == 0 {
        Some(TiwmError::TxBufferTooLong)
    } else if tag == 1 {
        Some(TiwmError::RxBufferTooLong)
    } else if tag == 2 {
        Some(TiwmError::Transmit)
    } else if tag == 3 {
        Some(TiwmError::Receive)
    } else if tag == 4 {
        Some(TiwmError::RAMBufferTooSmall)
    } else if tag == 5 {
        Some(TiwmError::AddressNack)
    } else if tag == 6 {
        Some(TiwmError::DataNack)
    } else if tag == 7 {
        Some(TiwmError::Overrun)
    } else if tag == 8 {
        Some(TiwmError::Timeout)
    } else if tag == 9 {
        Some(TiwmError::Unknown)
    } else {
        None
    }
}

/// Reads a command: `Some` exactly on the four-byte encodings.
pub open spec fn parse_command(bytes: Seq<u8>) -> Option<BiCommand> {
    if bytes.len() == 4 && bytes[0] <= 1 && bytes[1] <= 1 && bytes[2] <= 1 && bytes[3] <= 1 {
        Some(
            BiCommand {
                load: if bytes[0] == 1 { LoadState::On } else { LoadState::Off },
                reset: if bytes[1] == 1 { Reset::Yes } else { Reset::No },
                clear_fault: if bytes[2] == 1 { ClearFault::Yes } else { ClearFault::No },
                allow_undercurrent: if bytes[3] == 1 {
                    AllowUndercurrent::Yes
                } else {
                    AllowUndercurrent::No
                },
            },
        )
    } else {
        None
    }
}

/// Reads a measurement from the front of `bytes`, with the number of bytes
/// it takes.
pub open spec fn parse_measurement(bytes: Seq<u8>) -> Option<(Measurement, nat)> {
    match parse_uint(bytes, 0xffff) {
        None => None,
        Some((v, n1)) => match parse_uint(bytes.skip(n1 as int), 0xffff) {
            None => None,
            Some((i, n2)) => match parse_uint(
                bytes.skip(n1 as int).skip(n2 as int),
                0xffff_ffff_ffff_ffff,
            ) {
                None => None,
                Some((t, n3)) => Some(
                    (
                        Measurement {
                            vbat: MilliVolt(v as u16),
                            ibat: MilliAmp(i as u16),
                            t: t as u64,
                        },
                        n1 + n2 + n3,
                    ),
                ),
            },
        },
    }
}

/// Reads an optional measurement from the front of `bytes`.
pub open spec fn parse_pending(bytes: Seq<u8>) -> Option<(Option<Measurement>, nat)> {
    if bytes.len() == 0 {
        None
    } else if bytes[0] == 0 {
        Some((None, 1))
    } else if bytes[0] == 1 {
        match parse_measurement(bytes.skip(1)) {
            Some((m, n)) => Some((Some(m), n + 1)),
            None => None,
        }
    } else {
        None
    }
}

/// Reads a fault kind from the front of `bytes`.
pub open spec fn parse_kind(bytes: Seq<u8>) -> Option<(FaultKind, nat)> {
    if bytes.len() == 0 {
        None
    } else if bytes[0] == 0 {
        if bytes.len() < 3 {
            None
        } else {
            match parse_twim(bytes[2]) {
                None => None,
                Some(t) => if bytes[1] == 0 {
                    Some((FaultKind::I2C(I2CError::InaVinCurrent(t)), 3))
                } else if bytes[1] == 1 {
                    Some((FaultKind::I2C(I2CError::InaVinVoltage(t)), 3))
                } else if bytes[1] == 2 {
                    Some((FaultKind::I2C(I2CError::InaVinConfig(t)), 3))
                } else if bytes[1] == 3 {
                    Some((FaultKind::I2C(I2CError::InaVinId(t)), 3))
                } else {
                    None
                },
            }
        }
    } else if bytes[0] == 1 {
        Some((FaultKind::Undercurrent, 1))
    } else if bytes[0] == 2 {
        Some((FaultKind::NoBattery, 1))
    } else if bytes[0] == 3 {
        Some((FaultKind::Overcurrent, 1))
    } else {
        None
    }
}

/// Reads a reply's fault field from the front of `bytes`.
pub open spec fn parse_status(bytes: Seq<u8>) -> Option<(Result<(), Fault>, nat)> {
    if bytes.len() == 0 {
        None
    } else if bytes[0] == 0 {
        Some((Ok(()), 1))
    } else if bytes[0] == 1 {
        match parse_kind(bytes.skip(1)) {
            None => None,
            Some((kind, n1)) => match parse_uint(
                bytes.skip(1).skip(n1 as int),
                0xffff_ffff_ffff_ffff,
            ) {
                None => None,
                Some((time, n2)) => Some((Err(Fault { kind, time: time as u64 }), 1 + n1 + n2)),
            },
        }
    } else {
        None
    }
}

/// Reads a reply: `Some` exactly where `bytes` is the encoding of a reply,
/// with nothing after it.
pub open spec fn parse_reply(bytes: Seq<u8>) -> Option<BIReply> {
    match parse_pending(bytes) {
        None => None,
        Some((measurement, n1)) => match parse_status(bytes.skip(n1 as int)) {
            None => None,
            Some((fault, n2)) => if n1 + n2 == bytes.len() {
                Some(BIReply { measurement, fault })
            } else {
                None
            },
        },
    }
}

/// The bytes of a measurement, followed by anything, parse to it.
proof fn lemma_measurement_parses(m: Measurement, rest: Seq<u8>)
    ensures
        parse_measurement(measurement_bytes(m) + rest) == Some(
            (m, measurement_bytes(m).len()),
        ),
{
    let a = varint(m.vbat.0 as nat);
    let b = varint(m.ibat.0 as nat);
    let c = varint(m.t as nat);
    let bytes = measurement_bytes(m) + rest;
    assert(bytes =~= a + (b + c + rest));
    lemma_parse_varint(m.vbat.0 as nat, b + c + rest, 0xffff);
    assert(bytes.skip(a.len() as int) =~= b + (c + rest));
    lemma_parse_varint(m.ibat.0 as nat, c + rest, 0xffff);
    assert(bytes.skip(a.len() as int).skip(b.len() as int) =~= c + rest);
    lemma_parse_varint(m.t as nat, rest, 0xffff_ffff_ffff_ffff);
}

/// A parsed measurement took exactly its own bytes.
proof fn lemma_parsed_measurement(bytes: Seq<u8>)
    requires
        parse_measurement(bytes) is Some,
    ensures
        ({
            let (m, n) = parse_measurement(bytes).unwrap();
            &&& 3 <= n <= bytes.len()
            &&& bytes.take(n as int) == measurement_bytes(m)
        }),
{
    lemma_parsed_is_varint(bytes, 0xffff);
    let (v, n1) = parse_uint(bytes, 0xffff).unwrap();
    let b1 = bytes.skip(n1 as int);
    lemma_parsed_is_varint(b1, 0xffff);
    let (i, n2) = parse_uint(b1, 0xffff).unwrap();
    let b2 = b1.skip(n2 as int);
    lemma_parsed_is_varint(b2, 0xffff_ffff_ffff_ffff);
    let (t, n3) = parse_uint(b2, 0xffff_ffff_ffff_ffff).unwrap();
    assert(bytes.take((n1 + n2 + n3) as int) =~= bytes.take(n1 as int) + b1.take(n2 as int)
        + b2.take(n3 as int));
}

/// The bytes of an optional measurement, followed by anything, parse to it.
proof fn lemma_pending_parses(m: Option<Measurement>, rest: Seq<u8>)
    ensures
        parse_pending(pending_bytes(m) + rest) == Some((m, pending_bytes(m).len())),
{
    let bytes = pending_bytes(m) + rest;
    match m {
        None => {
            assert(bytes[0] == 0);
        },
        Some(x) => {
            assert(bytes[0] == 1);
            assert(bytes.skip(1) =~= measurement_bytes(x) + rest);
            lemma_measurement_parses(x, rest);
        },
    }
}

/// A parsed optional measurement took exactly its own bytes.
proof fn lemma_parsed_pending(bytes: Seq<u8>)
    requires
        parse_pending(bytes) is Some,
    ensures
        ({
            let (m, n) = parse_pending(bytes).unwrap();
            &&& 1 <= n <= bytes.len()
            &&& bytes.take(n as int) == pending_bytes(m)
        }),
{
    if bytes[0] == 0 {
        assert(bytes.take(1) =~= seq![0u8]);
    } else {
        lemma_parsed_measurement(bytes.skip(1));
        let (m, n) = parse_measurement(bytes.skip(1)).unwrap();
        assert(bytes.take((n + 1) as int) =~= seq![1u8] + bytes.skip(1).take(n as int));
    }
}

/// The tag of a cause reads back as that cause.
proof fn lemma_twim_parses(t: TiwmError)
    ensures
        parse_twim(twim_tag(t)) == Some(t),
{
}

/// A cause that was read has the tag it was read from.
proof fn lemma_parsed_twim(tag: u8)
    requires
        parse_twim(tag) is Some,
    ensures
        twim_tag(parse_twim(tag).unwrap()) == tag,
{
}

/// The bytes of a fault kind, followed by anything, parse to it.
proof fn lemma_kind_parses(k: FaultKind, rest: Seq<u8>)
    ensures
        parse_kind(kind_bytes(k) + rest) == Some((k, kind_bytes(k).len())),
{
    let bytes = kind_bytes(k) + rest;
    match k {
        FaultKind::I2C(e) => {
            assert(bytes[0] == 0);
            match e {
                I2CError::InaVinCurrent(t) => {
                    lemma_twim_parses(t);
                    assert(bytes[1] == 0 && bytes[2] == twim_tag(t));
                },
                I2CError::InaVinVoltage(t) => {
                    lemma_twim_parses(t);
                    assert(bytes[1] == 1 && bytes[2] == twim_tag(t));
                },
                I2CError::InaVinConfig(t) => {
                    lemma_twim_parses(t);
                    assert(bytes[1] == 2 && bytes[2] == twim_tag(t));
                },
                I2CError::InaVinId(t) => {
                    lemma_twim_parses(t);
                    assert(bytes[1] == 3 && bytes[2] == twim_tag(t));
                },
            }
        },
        FaultKind::Undercurrent => {
            assert(bytes[0] == 1);
        },
        FaultKind::NoBattery => {
            assert(bytes[0] == 2);
        },
        FaultKind::Overcurrent => {
            assert(bytes[0] == 3);
        },
    }
}

/// A parsed fault kind took exactly its own bytes.
proof fn lemma_parsed_kind(bytes: Seq<u8>)
    requires
        parse_kind(bytes) is Some,
    ensures
        ({
            let (k, n) = parse_kind(bytes).unwrap();
            &&& 1 <= n <= 3
            &&& n <= bytes.len()
            &&& bytes.take(n as int) == kind_bytes(k)
        }),
{
    let (k, n) = parse_kind(bytes).unwrap();
    if bytes[0] == 0 {
        lemma_parsed_twim(bytes[2]);
        assert(bytes.take(3) =~= seq![bytes[0], bytes[1], bytes[2]]);
        assert(bytes.take(n as int) =~= kind_bytes(k));
    } else {
        assert(bytes.take(1) =~= seq![bytes[0]]);
        assert(bytes.take(n as int) =~= kind_bytes(k));
    }
}

/// The bytes of a fault field, followed by anything, parse to it.
proof fn lemma_status_parses(s: Result<(), Fault>, rest: Seq<u8>)
    ensures
        parse_status(status_bytes(s) + rest) == Some((s, status_bytes(s).len())),
{
    let bytes = status_bytes(s) + rest;
    match s {
        Ok(u) => {
            assert(bytes[0] == 0);
            assert(s == Ok::<(), Fault>(u));
        },
        Err(f) => {
            assert(bytes[0] == 1);
            let k = kind_bytes(f.kind);
            let t = varint(f.time as nat);
            assert(bytes.skip(1) =~= k + (t + rest));
            lemma_kind_parses(f.kind, t + rest);
            assert(bytes.skip(1).skip(k.len() as int) =~= t + rest);
            lemma_parse_varint(f.time as nat, rest, 0xffff_ffff_ffff_ffff);
        },
    }
}

/// A parsed fault field took exactly its own bytes.
proof fn lemma_parsed_status(bytes: Seq<u8>)
    requires
        parse_status(bytes) is Some,
    ensures
        ({
            let (s, n) = parse_status(bytes).unwrap();
            &&& 1 <= n <= bytes.len()
            &&& bytes.take(n as int) == status_bytes(s)
        }),
{
    if bytes[0] == 0 {
        assert(bytes.take(1) =~= seq![0u8]);
    } else {
        let b1 = bytes.skip(1);
        lemma_parsed_kind(b1);
        let (k, n1) = parse_kind(b1).unwrap();
        let b2 = b1.skip(n1 as int);
        lemma_parsed_is_varint(b2, 0xffff_ffff_ffff_ffff);
        let (t, n2) = parse_uint(b2, 0xffff_ffff_ffff_ffff).unwrap();
        assert(bytes.take((1 + n1 + n2) as int) =~= seq![1u8] + (b1.take(n1 as int) + b2.take(
            n2 as int,
        )));
        assert(seq![1u8] + (kind_bytes(k) + varint(t)) =~= seq![1u8] + fault_bytes(
            Fault { kind: k, time: t as u64 },
        ));
    }
}

/// Reading back a command: the bytes of a command parse to that command.
pub proof fn lemma_command_round_trip(c: BiCommand)
    ensures
        parse_command(command_bytes(c)) == Some(c),
        command_bytes(c).len() == 4,
        command_bytes(c).len() <= COMMAND_MAX_SIZE,
        command_bytes(c).len() <= 255,
{
}

/// Writing what was read: bytes that parse to a command are the bytes of
/// that command.
pub proof fn lemma_command_canonical(bytes: Seq<u8>)
    requires
        parse_command(bytes) is Some,
    ensures
        command_bytes(parse_command(bytes).unwrap()) == bytes,
{
    assert(command_bytes(parse_command(bytes).unwrap()) =~= bytes);
}

/// Reading back a reply: the bytes of a reply parse to that reply.
pub proof fn lemma_reply_round_trip(r: BIReply)
    ensures
        parse_reply(reply_bytes(r)) == Some(r),
{
    let p = pending_bytes(r.measurement);
    let s = status_bytes(r.fault);
    lemma_pending_parses(r.measurement, s);
    assert((p + s).skip(p.len() as int) =~= s + Seq::<u8>::empty());
    lemma_status_parses(r.fault, Seq::empty());
}

/// Writing what was read: bytes that parse to a reply are the bytes of that
/// reply.
pub proof fn lemma_reply_canonical(bytes: Seq<u8>)
    requires
        parse_reply(bytes) is Some,
    ensures
        reply_bytes(parse_reply(bytes).unwrap()) == bytes,
{
    lemma_parsed_pending(bytes);
    let (m, n1) = parse_pending(bytes).unwrap();
    lemma_parsed_status(bytes.skip(n1 as int));
    let (s, n2) = parse_status(bytes.skip(n1 as int)).unwrap();
    assert(bytes =~= bytes.take(n1 as int) + bytes.skip(n1 as int).take(n2 as int));
}

/// A reply never takes more than [`REPLY_MAX_SIZE`] bytes, so its length
/// fits in the one-byte frame header.
pub proof fn lemma_reply_size(r: BIReply)
    ensures
        2 <= reply_bytes(r).len() <= REPLY_MAX_SIZE,
        reply_bytes(r).len() <= 255,
{
    match r.measurement {
        Some(m) => {
            lemma_varint_len_u16(m.vbat.0);
            lemma_varint_len_u16(m.ibat.0);
            lemma_varint_len_u64(m.t);
        },
        None => {},
    }
    match r.fault {
        Err(f) => {
            lemma_varint_len_u64(f.time);
        },
        Ok(()) => {},
    }
}

/// Encodes a command.
pub fn encode_command(c: &BiCommand) -> (out: Vec<u8>)
    ensures
        out@ == command_bytes(*c),
        out.len() == 4,
        out.len() <= COMMAND_MAX_SIZE,
{
    let load: u8 = match c.load {
        LoadState::Off => 0,
        LoadState::On => 1,
    };
    let reset: u8 = match c.reset {
        Reset::No => 0,
        Reset::Yes => 1,
    };
    let clear: u8 = match c.clear_fault {
        ClearFault::No => 0,
        ClearFault::Yes => 1,
    };
    let allow: u8 = match c.allow_undercurrent {
        AllowUndercurrent::No => 0,
        AllowUndercurrent::Yes => 1,
    };
    let out = vec![load, reset, clear, allow];
    proof {
        assert(out@ =~= command_bytes(*c));
    }
    out
}

/// Decodes a command: succeeds exactly on the encoding of a command, and
/// returns that command.
pub fn decode_command(bytes: &[u8]) -> (r: Option<BiCommand>)
    ensures
        r == parse_command(bytes@),
        match r {
            Some(c) => bytes@ == command_bytes(c),
            None => forall|c: BiCommand| bytes@ != command_bytes(c),
        },
{
    if bytes.len() != 4 || bytes[0] > 1 || bytes[1] > 1 || bytes[2] > 1 || bytes[3] > 1 {
        proof {
            assert forall|c: BiCommand| bytes@ != command_bytes(c) by {
                lemma_command_round_trip(c);
            }
        }
        return None;
    }
    let c = BiCommand {
        load: if bytes[0] == 1 { LoadState::On } else { LoadState::Off },
        reset: if bytes[1] == 1 { Reset::Yes } else { Reset::No },
        clear_fault: if bytes[2] == 1 { ClearFault::Yes } else { ClearFault::No },
        allow_undercurrent: if bytes[3] == 1 {
            AllowUndercurrent::Yes
        } else {
            AllowUndercurrent::No
        },
    };
    proof {
        lemma_command_canonical(bytes@);
    }
    Some(c)
}

/// The tag of a bus error cause.
fn twim_to_tag(t: TiwmError) -> (tag: u8)
    ensures
        tag == twim_tag(t),
{
    match t {
        TiwmError::TxBufferTooLong => 0,
        TiwmError::RxBufferTooLong => 1,
        TiwmError::Transmit => 2,
        TiwmError::Receive => 3,
        TiwmError::RAMBufferTooSmall => 4,
        TiwmError::AddressNack => 5,
        TiwmError::DataNack => 6,
        TiwmError::Overrun => 7,
        TiwmError::Timeout => 8,
        TiwmError::Unknown => 9,
    }
}

/// Reads a bus error cause from its tag.
fn twim_from_tag(tag: u8) -> (r: Option<TiwmError>)
    ensures
        r == parse_twim(tag),
{
    match tag {
        0 => Some(TiwmError::TxBufferTooLong),
        1 => Some(TiwmError::RxBufferTooLong),
        2 => Some(TiwmError::Transmit),
        3 => Some(TiwmError::Receive),
        4 => Some(TiwmError::RAMBufferTooSmall),
        5 => Some(TiwmError::AddressNack),
        6 => Some(TiwmError::DataNack),
        7 => Some(TiwmError::Overrun),
        8 => Some(TiwmError::Timeout),
        9 => Some(TiwmError::Unknown),
        _ => None,
    }
}

/// Appends the bytes of a fault kind.
fn put_kind(out: &mut Vec<u8>, k: FaultKind)
    ensures
        final(out)@ == old(out)@ + kind_bytes(k),
{
    match k {
        FaultKind::I2C(e) => {
            let (op, cause): (u8, TiwmError) = match e {
                I2CError::InaVinCurrent(t) => (0, t),
                I2CError::InaVinVoltage(t) => (1, t),
                I2CError::InaVinConfig(t) => (2, t),
                I2CError::InaVinId(t) => (3, t),
            };
            out.push(0);
            out.push(op);
            out.push(twim_to_tag(cause));
        },
        FaultKind::Undercurrent => out.push(1),
        FaultKind::NoBattery => out.push(2),
        FaultKind::Overcurrent => out.push(3),
    }
    proof {
        assert(out@ =~= old(out)@ + kind_bytes(k));
    }
}

/// Encodes a reply.
pub fn encode_reply(r: &BIReply) -> (out: Vec<u8>)
    ensures
        out@ == reply_bytes(*r),
        out.len() <= REPLY_MAX_SIZE,
{
    let mut out: Vec<u8> = Vec::new();
    match r.measurement {
        None => out.push(0),
        Some(m) => {
            out.push(1);
            put_uint(&mut out, m.vbat.0 as u64);
            put_uint(&mut out, m.ibat.0 as u64);
            put_uint(&mut out, m.t);
        },
    }
    proof {
        assert(out@ =~= pending_bytes(r.measurement));
    }
    match r.fault {
        Ok(_) => out.push(0),
        Err(f) => {
            out.push(1);
            put_kind(&mut out, f.kind);
            put_uint(&mut out, f.time);
        },
    }
    proof {
        assert(out@ =~= reply_bytes(*r));
        lemma_reply_size(*r);
    }
    out
}

/// Reads a measurement at `pos`, with the position after it.
fn take_measurement(bytes: &[u8], pos: usize) -> (r: Option<(Measurement, usize)>)
    requires
        pos <= bytes.len(),
    ensures
        match r {
            Some((m, next)) => pos < next <= bytes.len() && parse_measurement(
                bytes@.skip(pos as int),
            ) == Some((m, (next - pos) as nat)),
            None => parse_measurement(bytes@.skip(pos as int)) is None,
        },
{
    let (v, p1) = match take_uint(bytes, pos, 0xffff) {
        Some(x) => x,
        None => { return None; },
    };
    proof {
        assert(bytes@.skip(pos as int).skip(p1 - pos) =~= bytes@.skip(p1 as int));
    }
    let (i, p2) = match take_uint(bytes, p1, 0xffff) {
        Some(x) => x,
        None => { return None; },
    };
    proof {
        assert(bytes@.skip(pos as int).skip(p1 - pos).skip(p2 - p1) =~= bytes@.skip(p2 as int));
    }
    let (t, p3) = match take_uint(bytes, p2, 0xffff_ffff_ffff_ffff) {
        Some(x) => x,
        None => { return None; },
    };
    Some((Measurement { vbat: MilliVolt(v as u16), ibat: MilliAmp(i as u16), t }, p3))
}

/// Reads a fault kind at `pos`, with the position after it.
fn take_kind(bytes: &[u8], pos: usize) -> (r: Option<(FaultKind, usize)>)
    requires
        pos <= bytes.len(),
    ensures
        match r {
            Some((k, next)) => pos < next <= bytes.len() && parse_kind(bytes@.skip(pos as int))
                == Some((k, (next - pos) as nat)),
            None => parse_kind(bytes@.skip(pos as int)) is None,
        },
{
    if pos >= bytes.len() {
        return None;
    }
    let ghost tail = bytes@.skip(pos as int);
    proof {
        assert(tail[0] == bytes@[pos as int]);
    }
    match bytes[pos] {
        0 => {
            if bytes.len() - pos < 3 {
                return None;
            }
            proof {
                assert(tail[1] == bytes@[pos + 1]);
                assert(tail[2] == bytes@[pos + 2]);
            }
            let cause = match twim_from_tag(bytes[pos + 2]) {
                Some(t) => t,
                None => { return None; },
            };
            match bytes[pos + 1] {
                0 => Some((FaultKind::I2C(I2CError::InaVinCurrent(cause)), pos + 3)),
                1 => Some((FaultKind::I2C(I2CError::InaVinVoltage(cause)), pos + 3)),
                2 => Some((FaultKind::I2C(I2CError::InaVinConfig(cause)), pos + 3)),
                3 => Some((FaultKind::I2C(I2CError::InaVinId(cause)), pos + 3)),
                _ => None,
            }
        },
        1 => Some((FaultKind::Undercurrent, pos + 1)),
        2 => Some((FaultKind::NoBattery, pos + 1)),
        3 => Some((FaultKind::Overcurrent, pos + 1)),
        _ => None,
    }
}

/// Decodes a reply: succeeds exactly on the encoding of a reply, and
/// returns that reply.
pub fn decode_reply(bytes: &[u8]) -> (r: Option<BIReply>)
    ensures
        r == parse_reply(bytes@),
        match r {
            Some(v) => bytes@ == reply_bytes(v),
            None => forall|v: BIReply| bytes@ != reply_bytes(v),
        },
{
    let r = decode_reply_inner(bytes);
    proof {
        match r {
            Some(v) => {
                lemma_reply_canonical(bytes@);
            },
            None => {
                assert forall|v: BIReply| bytes@ != reply_bytes(v) by {
                    lemma_reply_round_trip(v);
                }
            },
        }
    }
    r
}

/// Reads a reply by the grammar of [`parse_reply`].
fn decode_reply_inner(bytes: &[u8]) -> (r: Option<BIReply>)
    ensures
        r == parse_reply(bytes@),
{
    if bytes.len() == 0 {
        return None;
    }
    proof {
        assert(bytes@.skip(0) =~= bytes@);
    }
    let (measurement, p1): (Option<Measurement>, usize) = match bytes[0] {
        0 => (None, 1),
        1 => match take_measurement(bytes, 1) {
            Some((m, next)) => (Some(m), next),
            None => { return None; },
        },
        _ => { return None; },
    };
    assert(parse_pending(bytes@) == Some((measurement, p1 as nat)));
    if p1 >= bytes.len() {
        return None;
    }
    let ghost tail = bytes@.skip(p1 as int);
    proof {
        assert(tail[0] == bytes@[p1 as int]);
        assert(tail.skip(1) =~= bytes@.skip(p1 + 1));
    }
    let (fault, p2): (Result<(), Fault>, usize) = match bytes[p1] {
        0 => (Ok(()), p1 + 1),
        1 => {
            let (kind, q) = match take_kind(bytes, p1 + 1) {
                Some(x) => x,
                None => { return None; },
            };
            proof {
                assert(tail.skip(1).skip(q - (p1 + 1)) =~= bytes@.skip(q as int));
            }
            match take_uint(bytes, q, 0xffff_ffff_ffff_ffff) {
                Some((time, next)) => (Err(Fault { kind, time }), next),
                None => { return None; },
            }
        },
        _ => { return None; },
    };
    assert(parse_status(tail) == Some((fault, (p2 - p1) as nat)));
    if p2 == bytes.len() {
        Some(BIReply { measurement, fault })
    } else {
        None
    }
}

} // verus!
