//! The host's end of the serial link: frames, the receive buffer, and the
//! decisions of the serial task. The caller owns the port and the timer.

use vstd::prelude::*;
use vstd::slice::slice_subrange;
use crate::clock::{later, later_ms};
use crate::host::{clear_fault_command, idle_command, ComCmd, Event};
use crate::protocol::{BIReply, BiCommand};
use crate::wire::{
    command_bytes, decode_reply, encode_command, encode_reply, lemma_reply_round_trip,
    lemma_reply_size, parse_reply, reply_bytes,
};

verus! {

/// Longest payload of a frame.
pub const MAX_PAYLOAD: usize = 254;

/// The interval at which the host repeats its command, in milliseconds.
pub const SEND_INTERVAL_MS: u64 = 500;

/// A payload behind its one-byte length.
pub open spec fn frame_bytes(payload: Seq<u8>) -> Seq<u8> {
    seq![payload.len() as u8] + payload
}

/// The frames of `payloads`, one after another.
pub open spec fn stream_bytes(payloads: Seq<Seq<u8>>) -> Seq<u8>
    decreases payloads.len(),
{
    if payloads.len() == 0 {
        Seq::empty()
    } else {
        frame_bytes(payloads[0]) + stream_bytes(payloads.skip(1))
    }
}

/// The start of a frame that is not all there yet: nothing at all, or a
/// length byte with fewer payload bytes than it announces.
pub open spec fn is_partial_frame(bytes: Seq<u8>) -> bool {
    bytes.len() == 0 || bytes.len() < 1 + bytes[0]
}

/// Cuts a received byte stream into the payloads of its complete frames, in
/// order, and the incomplete rest.
pub open spec fn split_frames(bytes: Seq<u8>) -> (Seq<Seq<u8>>, Seq<u8>)
    decreases bytes.len(),
{
    if is_partial_frame(bytes) {
        (Seq::empty(), bytes)
    } else {
        let end = 1 + bytes[0] as int;
        let (payloads, rest) = split_frames(bytes.skip(end));
        (seq![bytes.subrange(1, end)] + payloads, rest)
    }
}

/// The event that a received payload stands for: the reply it encodes, or
/// the loss of the link where it encodes none.
pub open spec fn payload_event(payload: Seq<u8>) -> Event {
    match parse_reply(payload) {
        Some(reply) => Event::ComReply(reply),
        None => Event::CommDc,
    }
}

/// The events of a run of payloads, one each, in order.
pub open spec fn payload_events(payloads: Seq<Seq<u8>>) -> Seq<Event> {
    Seq::new(payloads.len(), |i: int| payload_event(payloads[i]))
}

/// A stream of complete frames followed by the start of another splits into
/// exactly those frames' payloads, and leaves exactly that start.
pub proof fn lemma_split_stream(payloads: Seq<Seq<u8>>, partial: Seq<u8>)
    requires
        forall|i: int| 0 <= i < payloads.len() ==> (#[trigger] payloads[i]).len() <= 255,
        is_partial_frame(partial),
    ensures
        split_frames(stream_bytes(payloads) + partial) == (payloads, partial),
        split_frames(stream_bytes(payloads) + partial).0.len() == payloads.len(),
    decreases payloads.len(),
{
    let bytes = stream_bytes(payloads) + partial;
    if payloads.len() == 0 {
        assert(bytes =~= partial);
    } else {
        let first = payloads[0];
        let later = payloads.skip(1);
        let end = 1 + first.len() as int;
        assert(bytes[0] == first.len() as u8);
        assert(bytes.subrange(1, end) =~= first);
        assert(bytes.skip(end) =~= stream_bytes(later) + partial);
        assert forall|i: int| 0 <= i < later.len() implies (#[trigger] later[i]).len() <= 255 by {
            assert(later[i] == payloads[i + 1]);
        }
        lemma_split_stream(later, partial);
        assert(seq![first] + later =~= payloads);
    }
}

/// Reading in pieces changes nothing: cutting `first`, then cutting what it
/// left together with `second`, finds the frames of the whole stream, in
/// order, and leaves what cutting the whole stream leaves.
pub proof fn lemma_split_in_pieces(first: Seq<u8>, second: Seq<u8>)
    ensures
        ({
            let (found, rest) = split_frames(first);
            let (more, left) = split_frames(rest + second);
            split_frames(first + second) == (found + more, left)
        }),
    decreases first.len(),
{
    let whole = first + second;
    let (found, rest) = split_frames(first);
    let (more, left) = split_frames(rest + second);
    if is_partial_frame(first) {
        assert(found + more =~= more);
    } else {
        let end = 1 + first[0] as int;
        assert(whole[0] == first[0]);
        assert(whole.subrange(1, end) =~= first.subrange(1, end));
        assert(whole.skip(end) =~= first.skip(end) + second);
        lemma_split_in_pieces(first.skip(end), second);
        let later = split_frames(first.skip(end)).0;
        assert(seq![first.subrange(1, end)] + (later + more) =~= (seq![first.subrange(1, end)]
            + later) + more);
    }
}

/// The events of two runs of payloads, one after the other, are the events
/// of the first run followed by those of the second.
pub proof fn lemma_events_in_pieces(found: Seq<Seq<u8>>, more: Seq<Seq<u8>>)
    ensures
        payload_events(found + more) == payload_events(found) + payload_events(more),
{
    assert(payload_events(found + more) =~= payload_events(found) + payload_events(more));
}

/// A stream of the frames of `replies` followed by the start of another
/// frame yields exactly those replies, in order, and leaves exactly that
/// start.
pub proof fn lemma_split_replies(replies: Seq<BIReply>, partial: Seq<u8>)
    requires
        is_partial_frame(partial),
    ensures
        ({
            let payloads = replies.map_values(|r: BIReply| reply_bytes(r));
            let (found, rest) = split_frames(stream_bytes(payloads) + partial);
            &&& rest == partial
            &&& found.len() == replies.len()
            &&& payload_events(found) == replies.map_values(|r: BIReply| Event::ComReply(r))
        }),
{
    let payloads = replies.map_values(|r: BIReply| reply_bytes(r));
    assert forall|i: int| 0 <= i < payloads.len() implies (#[trigger] payloads[i]).len()
        <= 255 by {
        lemma_reply_size(replies[i]);
    }
    lemma_split_stream(payloads, partial);
    assert forall|i: int| 0 <= i < replies.len() implies payload_event(#[trigger] payloads[i])
        == Event::ComReply(replies[i]) by {
        lemma_reply_round_trip(replies[i]);
    }
    assert(payload_events(payloads) =~= replies.map_values(|r: BIReply| Event::ComReply(r)));
}

/// Puts `payload` behind its length byte, or returns `None` where it is
/// longer than [`MAX_PAYLOAD`].
pub fn frame(payload: &[u8]) -> (r: Option<Vec<u8>>)
    ensures
        payload@.len() <= MAX_PAYLOAD <==> r is Some,
        r matches Some(bytes) ==> bytes@ == frame_bytes(payload@),
{
    if payload.len() > MAX_PAYLOAD {
        return None;
    }
    let mut out: Vec<u8> = Vec::new();
    out.push(payload.len() as u8);
    let mut i: usize = 0;
    while i < payload.len()
        invariant
            i <= payload.len(),
            payload@.len() <= MAX_PAYLOAD,
            out@ == seq![payload@.len() as u8] + payload@.take(i as int),
        decreases payload.len() - i,
    {
        out.push(payload[i]);
        proof {
            assert(payload@.take(i + 1) =~= payload@.take(i as int).push(payload@[i as int]));
            assert(out@ =~= seq![payload@.len() as u8] + payload@.take(i + 1));
        }
        i += 1;
    }
    proof {
        assert(payload@.take(i as int) =~= payload@);
    }
    Some(out)
}

/// The frame that carries a command.
pub fn command_frame(command: &BiCommand) -> (bytes: Vec<u8>)
    ensures
        bytes@ == frame_bytes(command_bytes(*command)),
        bytes.len() == 5,
{
    let payload = encode_command(command);
    match frame(payload.as_slice()) {
        Some(bytes) => bytes,
        None => Vec::new(),
    }
}

/// The frame that carries a reply.
pub fn reply_frame(reply: &BIReply) -> (bytes: Vec<u8>)
    ensures
        bytes@ == frame_bytes(reply_bytes(*reply)),
        bytes.len() <= 32,
{
    let payload = encode_reply(reply);
    match frame(payload.as_slice()) {
        Some(bytes) => bytes,
        None => Vec::new(),
    }
}

/// Takes every complete frame off the front of the receive buffer and
/// returns one event for each, in order: the reply it carries, or `CommDc`
/// where its payload is no reply. The start of an incomplete frame stays at
/// the head of the buffer for the next read.
pub fn serial_decode(incoming_buf: &mut Vec<u8>) -> (events: Vec<Event>)
    ensures
        final(incoming_buf)@ == split_frames(old(incoming_buf)@).1,
        events@ == payload_events(split_frames(old(incoming_buf)@).0),
        events.len() == split_frames(old(incoming_buf)@).0.len(),
{
    let mut events: Vec<Event> = Vec::new();
    let mut idx: usize = 0;
    let ghost mut done: Seq<Seq<u8>> = Seq::empty();
    proof {
        assert(incoming_buf@.skip(0) =~= incoming_buf@);
        assert(done + split_frames(incoming_buf@).0 =~= split_frames(incoming_buf@).0);
    }
    loop
        invariant
            incoming_buf@ == old(incoming_buf)@,
            idx <= incoming_buf.len(),
            split_frames(incoming_buf@).0 == done + split_frames(
                incoming_buf@.skip(idx as int),
            ).0,
            split_frames(incoming_buf@).1 == split_frames(incoming_buf@.skip(idx as int)).1,
            events@ == payload_events(done),
        ensures
            is_partial_frame(incoming_buf@.skip(idx as int)),
        decreases incoming_buf.len() - idx,
    {
        let ghost tail = incoming_buf@.skip(idx as int);
        if idx >= incoming_buf.len() {
            break ;
        }
        let msg_len = incoming_buf[idx] as usize;
        let msg_start = idx + 1;
        if incoming_buf.len() - msg_start < msg_len {
            proof {
                assert(tail[0] == incoming_buf@[idx as int]);
            }
            break ;
        }
        let msg_end = msg_start + msg_len;
        let raw_msg = slice_subrange(incoming_buf.as_slice(), msg_start, msg_end);
        let event = match decode_reply(raw_msg) {
            Some(reply) => Event::ComReply(reply),
            None => Event::CommDc,
        };
        proof {
            assert(tail[0] == incoming_buf@[idx as int]);
            assert(tail.subrange(1, 1 + msg_len as int) =~= raw_msg@);
            assert(tail.skip(1 + msg_len as int) =~= incoming_buf@.skip(msg_end as int));
            let later = split_frames(incoming_buf@.skip(msg_end as int)).0;
            assert(done + (seq![raw_msg@] + later) =~= done.push(raw_msg@) + later);
            assert(payload_events(done).push(event) =~= payload_events(done.push(raw_msg@)));
            done = done.push(raw_msg@);
        }
        events.push(event);
        idx = msg_end;
    }
    proof {
        let tail = incoming_buf@.skip(idx as int);
        assert(is_partial_frame(tail));
        assert(done + Seq::<Seq<u8>>::empty() =~= done);
        assert(tail =~= incoming_buf@.subrange(idx as int, incoming_buf@.len() as int));
    }
    let rest = incoming_buf.split_off(idx);
    *incoming_buf = rest;
    events
}

/// What the serial task does next.
#[derive(Debug, Clone, PartialEq, Eq)]
pub enum LinkRequest {
    Nothing,
    /// Open the named device and report the outcome to
    /// [`SerialLink::connect_result`].
    Connect(String),
    /// Write these bytes to the port; report a failure as
    /// [`SerialLink::io_failed`].
    Write(Vec<u8>),
    /// Write these bytes to the port, whatever comes of it, and end the task.
    WriteAndStop(Vec<u8>),
    /// End the task.
    Stop,
}

/// A [`LinkRequest`] with its bytes as a sequence.
pub enum LinkRequestView {
    Nothing,
    Connect(String),
    Write(Seq<u8>),
    WriteAndStop(Seq<u8>),
    Stop,
}

impl View for LinkRequest {
    type V = LinkRequestView;

    open spec fn view(&self) -> LinkRequestView {
        match *self {
            LinkRequest::Nothing => LinkRequestView::Nothing,
            LinkRequest::Connect(name) => LinkRequestView::Connect(name),
            LinkRequest::Write(bytes) => LinkRequestView::Write(bytes@),
            LinkRequest::WriteAndStop(bytes) => LinkRequestView::WriteAndStop(bytes@),
            LinkRequest::Stop => LinkRequestView::Stop,
        }
    }
}

/// The serial task's memory: whether a port is open, the command that is
/// repeated at every send interval, when it is next repeated, and the bytes
/// received but not yet decoded.
#[derive(Debug, Clone, PartialEq, Eq)]
pub struct SerialLink {
    connected: bool,
    command: BiCommand,
    next_send: u64,
    incoming: Vec<u8>,
}

/// What a [`SerialLink`] holds.
pub struct SerialLinkView {
    pub connected: bool,
    /// The command that is repeated.
    pub command: BiCommand,
    /// When the command is next repeated, in milliseconds.
    pub next_send: u64,
    /// The bytes received but not yet decoded.
    pub incoming: Seq<u8>,
}

impl View for SerialLink {
    type V = SerialLinkView;

    closed spec fn view(&self) -> SerialLinkView {
        SerialLinkView {
            connected: self.connected,
            command: self.command,
            next_send: self.next_send,
            incoming: self.incoming@,
        }
    }
}

/// How the serial task answers a command from the session, or the closing
/// of its command channel (`None`): the link afterwards and what to do.
pub open spec fn link_command_spec(l: SerialLinkView, cmd: Option<ComCmd>) -> (
    SerialLinkView,
    LinkRequestView,
) {
    if !l.connected {
        match cmd {
            Some(ComCmd::NewDeviceName(name)) => (l, LinkRequestView::Connect(name)),
            Some(ComCmd::Shutdown) => (l, LinkRequestView::Stop),
            None => (l, LinkRequestView::Stop),
            _ => (l, LinkRequestView::Nothing),
        }
    } else {
        match cmd {
            Some(ComCmd::BICommand(c)) => (
                SerialLinkView { command: c, ..l },
                LinkRequestView::Write(frame_bytes(command_bytes(c))),
            ),
            Some(ComCmd::NewDeviceName(name)) => (l, LinkRequestView::Connect(name)),
            Some(ComCmd::Shutdown) => (
                l,
                LinkRequestView::WriteAndStop(frame_bytes(command_bytes(idle_command()))),
            ),
            Some(ComCmd::ClearFault) => (
                l,
                LinkRequestView::Write(frame_bytes(command_bytes(clear_fault_command()))),
            ),
            None => (l, LinkRequestView::Nothing),
        }
    }
}

impl SerialLink {
    /// A link with no port open, the default command, an empty buffer, and
    /// the first repetition due at once.
    pub fn new() -> (link: SerialLink)
        ensures
            link@ == (SerialLinkView {
                connected: false,
                command: idle_command(),
                next_send: 0,
                incoming: Seq::empty(),
            }),
    {
        SerialLink {
            connected: false,
            command: BiCommand::default(),
            next_send: 0,
            incoming: Vec::new(),
        }
    }

    /// Whether a port is open.
    pub fn is_connected(&self) -> (r: bool)
        ensures
            r == self@.connected,
    {
        self.connected
    }

    /// Answers a command from the session, or the closing of the command
    /// channel.
    pub fn command(&mut self, cmd: Option<ComCmd>) -> (request: LinkRequest)
        ensures
            (final(self)@, request@) == link_command_spec(old(self)@, cmd),
    {
        if !self.connected {
            match cmd {
                Some(ComCmd::NewDeviceName(name)) => LinkRequest::Connect(name),
                Some(ComCmd::Shutdown) => LinkRequest::Stop,
                None => LinkRequest::Stop,
                _ => LinkRequest::Nothing,
            }
        } else {
            match cmd {
                Some(ComCmd::BICommand(c)) => {
                    self.command = c;
                    LinkRequest::Write(command_frame(&c))
                },
                Some(ComCmd::NewDeviceName(name)) => LinkRequest::Connect(name),
                Some(ComCmd::Shutdown) => {
                    let c = idle_command();
                    LinkRequest::WriteAndStop(command_frame(&c))
                },
                Some(ComCmd::ClearFault) => {
                    let c = clear_fault_command();
                    LinkRequest::Write(command_frame(&c))
                },
                None => LinkRequest::Nothing,
            }
        }
    }

    /// Takes the outcome of opening a device. The first port that opens
    /// connects the link. Once connected, a failure keeps the port in use and
    /// reports the loss of the link.
    pub fn connect_result(&mut self, opened: bool) -> (event: Option<Event>)
        ensures
            final(self)@ == (SerialLinkView {
                connected: old(self)@.connected || opened,
                ..old(self)@
            }),
            event == if old(self)@.connected && !opened {
                Some(Event::CommDc)
            } else {
                None
            },
    {
        if self.connected {
            if opened {
                None
            } else {
                Some(Event::CommDc)
            }
        } else {
            self.connected = opened;
            None
        }
    }

    /// When the caller should report the time at the latest: when the
    /// command is next repeated, once a port is open.
    pub fn next_deadline(&self) -> (r: Option<u64>)
        ensures
            r == if self@.connected {
                Some(self@.next_send)
            } else {
                None::<u64>
            },
    {
        if self.connected {
            Some(self.next_send)
        } else {
            None
        }
    }

    /// Takes the time. Once a port is open and the repetition is due, this
    /// returns the frame of the current command to write, and the next
    /// repetition is due one send interval from now.
    pub fn tick(&mut self, now: u64) -> (bytes: Option<Vec<u8>>)
        ensures
            bytes is Some <==> old(self)@.connected && now >= old(self)@.next_send,
            bytes matches Some(b) ==> b@ == frame_bytes(command_bytes(old(self)@.command)),
            final(self)@ == (SerialLinkView {
                next_send: if bytes is Some {
                    later_ms(now, SEND_INTERVAL_MS)
                } else {
                    old(self)@.next_send
                },
                ..old(self)@
            }),
    {
        if self.connected && now >= self.next_send {
            self.next_send = later(now, SEND_INTERVAL_MS);
            Some(command_frame(&self.command))
        } else {
            None
        }
    }

    /// The event that a failed read or write stands for.
    pub fn io_failed(&self) -> (event: Event)
        ensures
            event == Event::CommDc,
    {
        Event::CommDc
    }

    /// Takes the bytes of one read and returns the events of every frame
    /// that is complete now.
    pub fn received(&mut self, bytes: &[u8]) -> (events: Vec<Event>)
        ensures
            final(self)@ == (SerialLinkView {
                incoming: split_frames(old(self)@.incoming + bytes@).1,
                ..old(self)@
            }),
            events@ == payload_events(split_frames(old(self)@.incoming + bytes@).0),
    {
        let mut i: usize = 0;
        while i < bytes.len()
            invariant
                i <= bytes.len(),
                self.connected == old(self).connected,
                self.command == old(self).command,
                self.next_send == old(self).next_send,
                self.incoming@ == old(self).incoming@ + bytes@.take(i as int),
            decreases bytes.len() - i,
        {
            self.incoming.push(bytes[i]);
            proof {
                assert(bytes@.take(i + 1) =~= bytes@.take(i as int).push(bytes@[i as int]));
                assert(self.incoming@ =~= old(self).incoming@ + bytes@.take(i + 1));
            }
            i += 1;
        }
        proof {
            assert(bytes@.take(i as int) =~= bytes@);
        }
        serial_decode(&mut self.incoming)
    }
}

} // verus!
