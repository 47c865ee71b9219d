//! The channel core: building outbound request and notification bodies,
//! enforcing the frame cap before anything is written, scaling request
//! timeouts by in-flight depth, failing everything on close, and keeping
//! the payload lane's notification/payload pairing.
//!
//! The async plumbing around this state (pipes, queues, timers) lives
//! outside the library; every decision it takes comes from here.

use vstd::prelude::*;
use vstd::string::StringSliceAdditionalSpecFns;
use crate::codec::{dec_digits, push_all, u64_to_dec};
use crate::json::InboundFrame;
use crate::registry::{RequestRegistry, ResponseOutcome, wrap_inc};

verus! {

/// Why a request failed before or instead of a worker response.
#[derive(Debug, PartialEq, Eq)]
pub enum RequestError {
    /// The channel is torn down; nothing was or will be written.
    ChannelClosed,
    /// The serialized request exceeds the frame cap; nothing was written.
    MessageTooLong,
    /// The payload exceeds the frame cap; nothing was written.
    PayloadTooLong,
    /// The scaled deadline fired before the response arrived.
    TimedOut,
    /// The worker replied with a logical error; `reason` is verbatim.
    Response { reason: String },
    /// The response arrived but did not fit the expected shape.
    FailedToParse { cause: String },
}

/// Why a notification failed before it was written.
#[derive(Debug, Clone, Copy, PartialEq, Eq, Structural)]
pub enum NotificationError {
    /// The channel is torn down.
    ChannelClosed,
    /// The serialized notification exceeds the frame cap.
    MessageTooLong,
    /// The payload exceeds the frame cap.
    PayloadTooLong,
}

/// Printable ASCII with no quote and no backslash: bytes that stand in a
/// JSON string exactly as they are.
pub open spec fn json_plain(s: Seq<u8>) -> bool {
    forall|i: int| 0 <= i < s.len() ==> 0x20 <= #[trigger] s[i] <= 0x7e && s[i] != 0x22 && s[i]
        != 0x5c
}

/// The serialized form of a JSON object: brace-delimited, at least `{}`.
pub open spec fn json_object(s: Seq<u8>) -> bool {
    s.len() >= 2 && s[0] == 0x7b && s[s.len() - 1] == 0x7d
}

/// The fields of an already-serialized object `m`, spliced onto a wire
/// body that is still open: nothing but a closing brace when `m` is
/// empty, else a comma and everything of `m` after its opening brace.
pub open spec fn splice_fields(m: Seq<u8>) -> Seq<u8> {
    if m.len() == 2 {
        seq![0x7du8]
    } else {
        seq![0x2cu8] + m.skip(1)
    }
}

/// The wire body of a request: `{"id":` id `,"method":"` method `"` and
/// the message's own fields.
pub open spec fn request_wire(id: u32, method: Seq<u8>, message: Seq<u8>) -> Seq<u8> {
    seq![0x7bu8, 0x22u8, 0x69u8, 0x64u8, 0x22u8, 0x3au8] + dec_digits(id as nat) + seq![
        0x2cu8,
        0x22u8,
        0x6du8,
        0x65u8,
        0x74u8,
        0x68u8,
        0x6fu8,
        0x64u8,
        0x22u8,
        0x3au8,
        0x22u8,
    ] + method + seq![0x22u8] + splice_fields(message)
}

/// The wire body of a notification: `{"event":"` event `"` and the
/// notification's own fields.
pub open spec fn notify_wire(event: Seq<u8>, notification: Seq<u8>) -> Seq<u8> {
    seq![0x7bu8, 0x22u8, 0x65u8, 0x76u8, 0x65u8, 0x6eu8, 0x74u8, 0x22u8, 0x3au8, 0x22u8] + event
        + seq![0x22u8] + splice_fields(notification)
}

/// The deadline for a request that found `depth` others in flight:
/// fifteen seconds plus a hundred milliseconds per in-flight request,
/// saturating at the widest representable value.
pub open spec fn timeout_spec(depth: nat) -> u64 {
    if 15000 + 100 * depth <= u64::MAX {
        (15000 + 100 * depth) as u64
    } else {
        u64::MAX
    }
}

/// Whether every byte of `s` may stand in a JSON string unescaped.
pub fn is_json_plain(s: &str) -> (r: bool)
    ensures
        r == json_plain(s.spec_bytes()),
{
    let b = s.as_bytes();
    let mut i: usize = 0;
    while i < b.len()
        invariant
            i <= b@.len(),
            b@ == s.spec_bytes(),
            forall|j: int| 0 <= j < i ==> 0x20 <= #[trigger] b@[j] <= 0x7e && b@[j] != 0x22 && b@[j]
                != 0x5c,
        decreases b@.len() - i,
    {
        let c = b[i];
        if c < 0x20 || c > 0x7e || c == 0x22 || c == 0x5c {
            return false;
        }
        i += 1;
    }
    true
}

/// Appends every byte of the slice to `dst`.
fn push_slice(dst: &mut Vec<u8>, src: &[u8])
    ensures
        final(dst)@ == old(dst)@ + src@,
{
    let mut i: usize = 0;
    while i < src.len()
        invariant
            i <= src@.len(),
            dst@ == old(dst)@ + src@.subrange(0, i as int),
        decreases src@.len() - i,
    {
        dst.push(src[i]);
        assert(old(dst)@ + src@.subrange(0, i as int) + seq![src@[i as int]] =~= old(dst)@
            + src@.subrange(0, i + 1));
        i += 1;
    }
    assert(src@.subrange(0, src@.len() as int) =~= src@);
}

/// Appends the fields of the serialized object `m`, as `splice_fields`
/// says.
fn push_fields(dst: &mut Vec<u8>, m: &Vec<u8>)
    requires
        json_object(m@),
    ensures
        final(dst)@ == old(dst)@ + splice_fields(m@),
{
    if m.len() == 2 {
        dst.push(0x7d);
        assert(dst@ =~= old(dst)@ + splice_fields(m@));
    } else {
        dst.push(0x2c);
        let ghost base = dst@;
        let mut i: usize = 1;
        while i < m.len()
            invariant
                1 <= i <= m@.len(),
                dst@ == base + m@.subrange(1, i as int),
            decreases m@.len() - i,
        {
            dst.push(m[i]);
            assert(base + m@.subrange(1, i as int) + seq![m@[i as int]] =~= base + m@.subrange(
                1,
                i + 1,
            ));
            i += 1;
        }
        assert(m@.subrange(1, m@.len() as int) =~= m@.skip(1));
        assert(dst@ =~= old(dst)@ + splice_fields(m@));
    }
}

/// Builds the request wire body, exactly as `request_wire` describes it.
pub fn build_request_wire(id: u32, method: &str, message: &Vec<u8>) -> (w: Vec<u8>)
    requires
        json_plain(method.spec_bytes()),
        json_object(message@),
    ensures
        w@ == request_wire(id, method.spec_bytes(), message@),
{
    let mut w: Vec<u8> = Vec::new();
    w.push(0x7b);
    w.push(0x22);
    w.push(0x69);
    w.push(0x64);
    w.push(0x22);
    w.push(0x3a);
    let digits = u64_to_dec(id as u64);
    push_all(&mut w, &digits);
    w.push(0x2c);
    w.push(0x22);
    w.push(0x6d);
    w.push(0x65);
    w.push(0x74);
    w.push(0x68);
    w.push(0x6f);
    w.push(0x64);
    w.push(0x22);
    w.push(0x3a);
    w.push(0x22);
    push_slice(&mut w, method.as_bytes());
    w.push(0x22);
    push_fields(&mut w, message);
    proof {
        assert(w@ =~= request_wire(id, method.spec_bytes(), message@));
    }
    w
}

/// Builds the notification wire body, exactly as `notify_wire` describes
/// it.
pub fn build_notify_wire(event: &str, notification: &Vec<u8>) -> (w: Vec<u8>)
    requires
        json_plain(event.spec_bytes()),
        json_object(notification@),
    ensures
        w@ == notify_wire(event.spec_bytes(), notification@),
{
    let mut w: Vec<u8> = Vec::new();
    w.push(0x7b);
    w.push(0x22);
    w.push(0x65);
    w.push(0x76);
    w.push(0x65);
    w.push(0x6e);
    w.push(0x74);
    w.push(0x22);
    w.push(0x3a);
    w.push(0x22);
    push_slice(&mut w, event.as_bytes());
    w.push(0x22);
    push_fields(&mut w, notification);
    proof {
        assert(w@ =~= notify_wire(event.spec_bytes(), notification@));
    }
    w
}

/// The deadline, in milliseconds, for a request that found `depth`
/// others in flight. Timeout scaling: with `depth` at most the number of
/// distinct ids, the deadline is exactly `15000 + 100 * depth`.
pub fn request_timeout_ms(depth: usize) -> (ms: u64)
    ensures
        ms == timeout_spec(depth as nat),
        depth <= 0x1_0000_0000 ==> ms == 15000 + 100 * depth,
{
    let wide: u128 = 15000u128 + 100u128 * (depth as u128);
    if wide > u64::MAX as u128 {
        u64::MAX
    } else {
        wide as u64
    }
}

/// One request, prepared to go out: its id, how many requests were in
/// flight before it, the wire body to frame, and its deadline.
pub struct PreparedRequest {
    pub id: u32,
    pub depth: usize,
    pub wire: Vec<u8>,
    pub timeout_ms: u64,
}

/// One lane's shared state: the request registry and the closed flag.
/// Once closed, nothing more is accepted.
pub struct ChannelState {
    registry: RequestRegistry,
    closed: bool,
}

impl ChannelState {
    pub closed spec fn registry_spec(&self) -> RequestRegistry {
        self.registry
    }

    pub closed spec fn closed_spec(&self) -> bool {
        self.closed
    }

    pub open spec fn entries(&self) -> Seq<(u32, async_oneshot::Sender<ResponseOutcome>)> {
        self.registry_spec().entries()
    }

    pub open spec fn pending_ids(&self) -> Seq<u32> {
        self.registry_spec().pending_ids()
    }

    pub open spec fn contains_id(&self, id: u32) -> bool {
        self.registry_spec().contains_id(id)
    }

    pub open spec fn next_id_spec(&self) -> u32 {
        self.registry_spec().next_id_spec()
    }

    /// Id uniqueness: no id is in flight twice.
    pub open spec fn wf(&self) -> bool {
        self.registry_spec().wf()
    }

    pub fn new() -> (r: Self)
        ensures
            r.wf(),
            !r.closed_spec(),
            r.entries() =~= Seq::<(u32, async_oneshot::Sender<ResponseOutcome>)>::empty(),
            r.next_id_spec() == 0,
    {
        ChannelState { registry: RequestRegistry::new(), closed: false }
    }

    pub fn is_closed(&self) -> (r: bool)
        ensures
            r == self.closed_spec(),
    {
        self.closed
    }

    /// How many requests are in flight.
    pub fn depth(&self) -> (n: usize)
        ensures
            n == self.entries().len(),
    {
        self.registry.depth()
    }

    /// Begins one request: allocates the id, builds the wire body,
    /// enforces the caps before anything could be written, and refuses a
    /// closed channel. On every refusal the id just allocated is
    /// reclaimed; on success the caller writes the wire body and the
    /// payload as two frames and races the returned deadline.
    pub fn start_request(
        &mut self,
        sender: async_oneshot::Sender<ResponseOutcome>,
        method: &str,
        message: &Vec<u8>,
        payload_len: usize,
    ) -> (r: Result<PreparedRequest, RequestError>)
        requires
            old(self).wf(),
            json_plain(method.spec_bytes()),
            json_object(message@),
        ensures
            final(self).wf(),
            final(self).closed_spec() == old(self).closed_spec(),
            final(self).next_id_spec() == wrap_inc(old(self).next_id_spec()),
            ({
                let id = old(self).next_id_spec();
                let wlen = request_wire(id, method.spec_bytes(), message@).len();
                &&& (r == Err::<PreparedRequest, RequestError>(RequestError::MessageTooLong)
                    <==> wlen > crate::NS_PAYLOAD_MAX_LEN)
                &&& (r == Err::<PreparedRequest, RequestError>(RequestError::PayloadTooLong)
                    <==> wlen <= crate::NS_PAYLOAD_MAX_LEN && payload_len
                    > crate::NS_PAYLOAD_MAX_LEN)
                &&& (r == Err::<PreparedRequest, RequestError>(RequestError::ChannelClosed)
                    <==> wlen <= crate::NS_PAYLOAD_MAX_LEN && payload_len
                    <= crate::NS_PAYLOAD_MAX_LEN && old(self).closed_spec())
                &&& (r is Ok <==> wlen <= crate::NS_PAYLOAD_MAX_LEN && payload_len
                    <= crate::NS_PAYLOAD_MAX_LEN && !old(self).closed_spec())
                &&& (r matches Ok(p) ==> {
                    &&& p.id == id
                    &&& p.depth == old(self).entries().len()
                    &&& p.wire@ == request_wire(id, method.spec_bytes(), message@)
                    &&& p.timeout_ms == timeout_spec(p.depth as nat)
                    &&& final(self).contains_id(id)
                    &&& final(self).entries().len() >= 1 && final(self).entries().last() == (
                        id,
                        sender,
                    )
                })
                &&& (r is Err ==> !final(self).contains_id(id))
                &&& forall|k: u32| k != id ==> (final(self).contains_id(k) <==> old(self)
                    .contains_id(k))
            }),
    {
        let (id, depth, displaced) = self.registry.allocate(sender);
        let wire = build_request_wire(id, method, message);
        if wire.len() > crate::NS_PAYLOAD_MAX_LEN {
            let _removed = self.registry.forget(id);
            return Err(RequestError::MessageTooLong);
        }
        if payload_len > crate::NS_PAYLOAD_MAX_LEN {
            let _removed = self.registry.forget(id);
            return Err(RequestError::PayloadTooLong);
        }
        if self.closed {
            let _removed = self.registry.forget(id);
            return Err(RequestError::ChannelClosed);
        }
        let timeout_ms = request_timeout_ms(depth);
        Ok(PreparedRequest { id, depth, wire, timeout_ms })
    }

    /// Begins one notification: builds the wire body and enforces the
    /// caps and the closed flag; nothing is written when an error comes
    /// back. On success the caller writes the wire body and the payload
    /// as two frames.
    pub fn start_notify(&self, event: &str, notification: &Vec<u8>, payload_len: usize) -> (r:
        Result<Vec<u8>, NotificationError>)
        requires
            json_plain(event.spec_bytes()),
            json_object(notification@),
        ensures
            ({
                let wlen = notify_wire(event.spec_bytes(), notification@).len();
                &&& (r == Err::<Vec<u8>, NotificationError>(NotificationError::MessageTooLong)
                    <==> wlen > crate::NS_PAYLOAD_MAX_LEN)
                &&& (r == Err::<Vec<u8>, NotificationError>(NotificationError::PayloadTooLong)
                    <==> wlen <= crate::NS_PAYLOAD_MAX_LEN && payload_len
                    > crate::NS_PAYLOAD_MAX_LEN)
                &&& (r == Err::<Vec<u8>, NotificationError>(NotificationError::ChannelClosed)
                    <==> wlen <= crate::NS_PAYLOAD_MAX_LEN && payload_len
                    <= crate::NS_PAYLOAD_MAX_LEN && self.closed_spec())
                &&& (r matches Ok(w) ==> w@ == notify_wire(event.spec_bytes(), notification@)
                    && wlen <= crate::NS_PAYLOAD_MAX_LEN && payload_len
                    <= crate::NS_PAYLOAD_MAX_LEN && !self.closed_spec())
            }),
    {
        let wire = build_notify_wire(event, notification);
        if wire.len() > crate::NS_PAYLOAD_MAX_LEN {
            return Err(NotificationError::MessageTooLong);
        }
        if payload_len > crate::NS_PAYLOAD_MAX_LEN {
            return Err(NotificationError::PayloadTooLong);
        }
        if self.closed {
            return Err(NotificationError::ChannelClosed);
        }
        Ok(wire)
    }

    /// Takes the completion slot of the in-flight request `id` out, so
    /// the caller can hand it the response; a response that matches no
    /// in-flight id finds nothing and changes nothing.
    pub fn take_response_slot(&mut self, id: u32) -> (r: Option<
        async_oneshot::Sender<ResponseOutcome>,
    >)
        requires
            old(self).wf(),
        ensures
            final(self).wf(),
            final(self).closed_spec() == old(self).closed_spec(),
            final(self).next_id_spec() == old(self).next_id_spec(),
            r is Some <==> old(self).contains_id(id),
            r is None ==> *final(self) == *old(self),
            r matches Some(s) ==> exists|k: int|
                0 <= k < old(self).entries().len() && old(self).entries()[k] == (id, s)
                    && final(self).entries() == old(self).entries().remove(k),
            !final(self).contains_id(id),
            forall|j: u32| j != id ==> (final(self).contains_id(j) <==> old(self).contains_id(j)),
    {
        let r = self.registry.take(id);
        proof {
            if r is Some {
                let prev = old(self).registry_spec();
                let s = r.unwrap();
                let k = choose|k: int|
                    0 <= k < prev.entries().len() && prev.entries()[k] == (id, s)
                        && self.registry.entries() == prev.entries().remove(k);
                assert(0 <= k < old(self).entries().len() && old(self).entries()[k] == (id, s)
                    && self.entries() == old(self).entries().remove(k));
            }
        }
        r
    }

    /// Reclaims a timed-out request's id; late responses for it will then
    /// match nothing.
    pub fn forget_request(&mut self, id: u32) -> (removed: bool)
        requires
            old(self).wf(),
        ensures
            final(self).wf(),
            final(self).closed_spec() == old(self).closed_spec(),
            final(self).next_id_spec() == old(self).next_id_spec(),
            removed <==> old(self).contains_id(id),
            !removed ==> *final(self) == *old(self),
            !final(self).contains_id(id),
            forall|j: u32| j != id ==> (final(self).contains_id(j) <==> old(self).contains_id(j)),
    {
        self.registry.forget(id)
    }

    /// Closes the lane: every parked completion slot comes back, oldest
    /// first, for the caller to fail with `ChannelClosed`; afterwards
    /// nothing is in flight and every further request or notification is
    /// refused.
    pub fn close(&mut self) -> (senders: Vec<async_oneshot::Sender<ResponseOutcome>>)
        ensures
            final(self).wf(),
            final(self).closed_spec(),
            final(self).entries().len() == 0,
            senders@ == old(self).entries().map_values(
                |e: (u32, async_oneshot::Sender<ResponseOutcome>)| e.1,
            ),
            final(self).next_id_spec() == old(self).next_id_spec(),
    {
        self.closed = true;
        self.registry.drain()
    }
}

/// What the payload-lane reader is waiting for: the next JSON frame, or
/// the payload frame that must follow a notification.
pub enum ReaderState {
    AwaitMessage,
    AwaitPayload { target_id: Option<String>, message: serde_json::Value },
}

/// The reader state after one JSON frame: a notification parks itself to
/// wait for its payload; everything else leaves the reader awaiting the
/// next JSON frame.
pub open spec fn json_step(frame: InboundFrame) -> ReaderState {
    match frame {
        InboundFrame::Notification { target_id, message } => ReaderState::AwaitPayload {
            target_id,
            message,
        },
        _ => ReaderState::AwaitMessage,
    }
}

/// What a payload frame produces out of the notification parked before
/// it: delivery to the notification's target, or surfacing when the
/// notification had no usable target.
pub open spec fn payload_delivery(st: ReaderState, payload: Vec<u8>) -> PayloadAction {
    match st {
        ReaderState::AwaitPayload { target_id: Some(t), message } => PayloadAction::Deliver {
            target_id: t,
            message,
            payload,
        },
        _ => PayloadAction::Surface { data: payload },
    }
}

/// What the channel owes after one JSON frame.
pub enum JsonAction {
    /// A response matched the in-flight request under `id`: `sender` is
    /// the slot its caller is parked on, and `outcome` what the frame
    /// said; the caller of the reader sends `outcome` through `sender`.
    Completed { id: u32, sender: async_oneshot::Sender<ResponseOutcome>, outcome: ResponseOutcome },
    /// A response matched nothing in flight: counted as a warn, dropped.
    Unmatched { id: u32 },
    /// A notification: the very next frame is its payload.
    ExpectPayload,
    /// Bytes for the unexpected-data sink.
    Surface { data: Vec<u8> },
}

/// What the channel owes after a payload frame.
pub enum PayloadAction {
    /// The pair for the subscribers of `target_id`, in arrival order.
    Deliver { target_id: String, message: serde_json::Value, payload: Vec<u8> },
    /// The pair had no target: hand it to the unexpected-data sink.
    Surface { data: Vec<u8> },
}

/// The payload-lane reader's pairing state. A notification frame parks
/// here until the very next frame, its payload, arrives; no response can
/// be consumed in between.
pub struct PayloadReader {
    st: ReaderState,
}

impl PayloadReader {
    pub closed spec fn state(&self) -> ReaderState {
        self.st
    }

    pub fn new() -> (r: Self)
        ensures
            r.state() is AwaitMessage,
    {
        PayloadReader { st: ReaderState::AwaitMessage }
    }

    /// Whether the next frame on the lane is a payload frame.
    pub fn expects_payload(&self) -> (r: bool)
        ensures
            r == (self.state() is AwaitPayload),
    {
        match self.st {
            ReaderState::AwaitPayload { .. } => true,
            ReaderState::AwaitMessage => false,
        }
    }

    /// Takes one classified JSON frame: a response takes the slot of the
    /// in-flight request under its id out, paired with the outcome the
    /// frame said — `Ok` data for a success, the reason for an error —
    /// a notification parks until its payload, anything unexpected is
    /// surfaced.
    pub fn on_json_frame(&mut self, frame: InboundFrame, chan: &mut ChannelState) -> (act:
        JsonAction)
        requires
            old(self).state() is AwaitMessage,
            old(chan).wf(),
        ensures
            final(self).state() == json_step(frame),
            final(chan).wf(),
            final(chan).closed_spec() == old(chan).closed_spec(),
            final(chan).next_id_spec() == old(chan).next_id_spec(),
            match frame {
                InboundFrame::Success { id, data } => {
                    &&& (old(chan).contains_id(id) ==> (act matches JsonAction::Completed {
                        id: rid,
                        sender,
                        outcome,
                    } && rid == id && outcome == (ResponseOutcome::Accepted { data }) && exists|
                        k: int,
                    |
                        0 <= k < old(chan).entries().len() && old(chan).entries()[k] == (id, sender)
                            && final(chan).entries() == old(chan).entries().remove(k)))
                    &&& (!old(chan).contains_id(id) ==> act == (JsonAction::Unmatched { id })
                        && *final(chan) == *old(chan))
                    &&& !final(chan).contains_id(id)
                    &&& forall|j: u32| j != id ==> (final(chan).contains_id(j) <==> old(chan)
                        .contains_id(j))
                },
                InboundFrame::Error { id, reason } => {
                    &&& (old(chan).contains_id(id) ==> (act matches JsonAction::Completed {
                        id: rid,
                        sender,
                        outcome,
                    } && rid == id && outcome == (ResponseOutcome::Rejected { reason }) && exists|
                        k: int,
                    |
                        0 <= k < old(chan).entries().len() && old(chan).entries()[k] == (id, sender)
                            && final(chan).entries() == old(chan).entries().remove(k)))
                    &&& (!old(chan).contains_id(id) ==> act == (JsonAction::Unmatched { id })
                        && *final(chan) == *old(chan))
                    &&& !final(chan).contains_id(id)
                    &&& forall|j: u32| j != id ==> (final(chan).contains_id(j) <==> old(chan)
                        .contains_id(j))
                },
                InboundFrame::Notification { target_id, message } => act
                    == JsonAction::ExpectPayload && *final(chan) == *old(chan),
                InboundFrame::Unexpected { data } => act == (JsonAction::Surface { data })
                    && *final(chan) == *old(chan),
            },
    {
        match frame {
            InboundFrame::Success { id, data } => {
                self.st = ReaderState::AwaitMessage;
                match chan.take_response_slot(id) {
                    Some(sender) => JsonAction::Completed {
                        id,
                        sender,
                        outcome: ResponseOutcome::Accepted { data },
                    },
                    None => JsonAction::Unmatched { id },
                }
            },
            InboundFrame::Error { id, reason } => {
                self.st = ReaderState::AwaitMessage;
                match chan.take_response_slot(id) {
                    Some(sender) => JsonAction::Completed {
                        id,
                        sender,
                        outcome: ResponseOutcome::Rejected { reason },
                    },
                    None => JsonAction::Unmatched { id },
                }
            },
            InboundFrame::Notification { target_id, message } => {
                self.st = ReaderState::AwaitPayload { target_id, message };
                JsonAction::ExpectPayload
            },
            InboundFrame::Unexpected { data } => {
                self.st = ReaderState::AwaitMessage;
                JsonAction::Surface { data }
            },
        }
    }

    /// Takes the payload frame that follows a notification and pairs the
    /// two: the parked notification is delivered with exactly these
    /// bytes, and the reader awaits the next JSON frame.
    pub fn on_payload_frame(&mut self, payload: Vec<u8>) -> (act: PayloadAction)
        requires
            old(self).state() is AwaitPayload,
        ensures
            final(self).state() is AwaitMessage,
            act == payload_delivery(old(self).state(), payload),
    {
        let mut prev = ReaderState::AwaitMessage;
        core::mem::swap(&mut prev, &mut self.st);
        match prev {
            ReaderState::AwaitPayload { target_id: Some(target_id), message } => {
                PayloadAction::Deliver { target_id, message, payload }
            },
            _ => PayloadAction::Surface { data: payload },
        }
    }
}

/// Payload pairing: a notification frame parks the reader, and whatever
/// frame comes next on the lane is delivered as that notification's
/// payload, with the reader back awaiting JSON; a response can never be
/// consumed between the two because only a payload frame is accepted in
/// between.
pub proof fn lemma_payload_pairing(
    target_id: Option<String>,
    message: serde_json::Value,
    payload: Vec<u8>,
)
    ensures
        ({
            let mid = json_step(InboundFrame::Notification { target_id, message });
            &&& mid is AwaitPayload
            &&& (target_id matches Some(t) ==> payload_delivery(mid, payload)
                == (PayloadAction::Deliver { target_id: t, message, payload }))
            &&& (target_id is None ==> payload_delivery(mid, payload) == (PayloadAction::Surface {
                data: payload,
            }))
        }),
{
}

} // verus!
