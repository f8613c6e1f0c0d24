//! One websocket connection as a state machine over the bytes it has
//! received: first the HTTP upgrade request (a request line, then headers up
//! to an empty line), then frames. Replies are queued in `outbox` for the
//! program to write to the socket.
use vstd::prelude::*;
use vstd::string::StringSliceAdditionalSpecFns;
use vstd::utf8::{valid_utf8, encode_utf8};
use crate::ids::ClientId;
use crate::ring::{ByteRing, ring_contents, ring_capacity};
use crate::text::{is_ascii_ws, ascii_whitespace, bytes_eq, str_from_utf8};
use crate::handshake::{accept_key, compute_accept_key};
use crate::websocket::{
    byte_trim, trimmed, has_non_ws, HttpUpgradeChecklist, WebsocketFrameBuilder,
    ClientControlState, frame_length, with_first_two, from_be2, from_be8, header_for,
    law_header_reads_back,
};

verus! {

/// Inputs on which the connection cannot go on (the server gives up on it as
/// a whole rather than answering).
#[derive(PartialEq, Eq, Structural, Copy, Clone, Debug)]
pub enum ClientFault {
    /// A frame with an empty payload.
    EmptyPayload,
    /// A frame with a payload but no masking key.
    UnmaskedPayload,
    /// A header line with nothing before its `:`.
    EmptyHeaderField,
    /// A `Sec-WebSocket-Key` that is not UTF-8.
    KeyNotUtf8,
}

/// What one round of `poll` found.
pub enum ClientControllerEvent {
    /// Nothing more can be done without more data.
    Sleep,
    /// More may be possible; poll again.
    MaybeUnfinished,
    /// A binary message arrived, with its unmasked payload.
    MessageReceived(ClientId, Vec<u8>),
    /// The upgrade succeeded; more data may be waiting.
    ClientUpgraded(ClientId),
    /// The connection hit an input it cannot handle.
    Fault(ClientFault),
}

/// `ClientControllerEvent` as a value.
pub enum PollOutcome {
    Sleep,
    MaybeUnfinished,
    MessageReceived(ClientId, Seq<u8>),
    ClientUpgraded(ClientId),
    Fault(ClientFault),
}

pub open spec fn outcome(e: ClientControllerEvent) -> PollOutcome {
    match e {
        ClientControllerEvent::Sleep => PollOutcome::Sleep,
        ClientControllerEvent::MaybeUnfinished => PollOutcome::MaybeUnfinished,
        ClientControllerEvent::MessageReceived(id, p) => PollOutcome::MessageReceived(id, p@),
        ClientControllerEvent::ClientUpgraded(id) => PollOutcome::ClientUpgraded(id),
        ClientControllerEvent::Fault(f) => PollOutcome::Fault(f),
    }
}

pub open spec fn outcome_opt(e: Option<ClientControllerEvent>) -> Option<PollOutcome> {
    match e {
        Some(e) => Some(outcome(e)),
        None => None,
    }
}

/// A connection.
pub struct Client {
    pub id: ClientId,
    /// Received bytes not yet consumed.
    pub inbox: ByteRing,
    /// Bytes waiting to be written to the socket.
    pub outbox: Vec<u8>,
    pub closed: bool,
    pub control_state: ClientControlState,
    pub header_buffer: Vec<u8>,
    pub checklist: HttpUpgradeChecklist,
    pub frame: WebsocketFrameBuilder,
}

/// A connection as a value.
#[verifier::ext_equal]
pub struct ClientView {
    pub id: ClientId,
    pub inbox: Seq<u8>,
    pub capacity: nat,
    pub outbox: Seq<u8>,
    pub closed: bool,
    pub state: ClientControlState,
    pub header: Seq<u8>,
    pub connection_upgrade: bool,
    pub upgrade_websocket: bool,
    pub accept: Option<Seq<char>>,
    pub frame: WebsocketFrameBuilder,
}

impl View for Client {
    type V = ClientView;

    open spec fn view(&self) -> ClientView {
        ClientView {
            id: self.id,
            inbox: ring_contents(self.inbox),
            capacity: ring_capacity(self.inbox),
            outbox: self.outbox@,
            closed: self.closed,
            state: self.control_state,
            header: self.header_buffer@,
            connection_upgrade: self.checklist.connection_upgrade,
            upgrade_websocket: self.checklist.upgrade_websocket,
            accept: match self.checklist.websocket_accept {
                Some(s) => Some(s@),
                None => None,
            },
            frame: self.frame,
        }
    }
}

/// The only request line accepted.
pub open spec fn request_line() -> Seq<u8> {
    "GET /game HTTP/1.1\r\n".spec_bytes()
}

/// `k` is the first place where `c` and `d` differ.
pub open spec fn is_first_mismatch(c: Seq<u8>, d: Seq<u8>, k: int) -> bool {
    &&& 0 <= k < d.len()
    &&& k < c.len()
    &&& c[k] != d[k]
    &&& forall|j: int| 0 <= j < k ==> c[j] == d[j]
}

/// The first place where `c` and `d` differ.
pub open spec fn first_mismatch(c: Seq<u8>, d: Seq<u8>) -> int {
    choose|k: int| is_first_mismatch(c, d, k)
}

pub proof fn lemma_first_mismatch_unique(c: Seq<u8>, d: Seq<u8>, k: int)
    requires
        is_first_mismatch(c, d, k),
    ensures
        first_mismatch(c, d) == k,
{
    let k2 = first_mismatch(c, d);
    assert(is_first_mismatch(c, d, k2));
    if k2 < k {
        assert(c[k2] == d[k2]);
    }
    if k < k2 {
        assert(c[k] == d[k]);
    }
}

/// `k` is the number of whitespace bytes `c` starts with.
pub open spec fn is_ws_run(c: Seq<u8>, k: int) -> bool {
    &&& 0 <= k <= c.len()
    &&& forall|j: int| 0 <= j < k ==> is_ascii_ws(#[trigger] c[j])
    &&& k < c.len() ==> !is_ascii_ws(c[k])
}

/// The number of whitespace bytes `c` starts with.
pub open spec fn leading_ws(c: Seq<u8>) -> int {
    choose|k: int| is_ws_run(c, k)
}

pub proof fn lemma_leading_ws_unique(c: Seq<u8>, k: int)
    requires
        is_ws_run(c, k),
    ensures
        leading_ws(c) == k,
{
    let k2 = leading_ws(c);
    assert(is_ws_run(c, k2));
    if k2 < k {
        assert(is_ascii_ws(c[k2]));
    }
    if k < k2 {
        assert(is_ascii_ws(c[k]));
    }
}

/// `k` is the first place `b` occurs in `c`.
pub open spec fn is_first_index(c: Seq<u8>, b: u8, k: int) -> bool {
    &&& 0 <= k < c.len()
    &&& c[k] == b
    &&& forall|j: int| 0 <= j < k ==> c[j] != b
}

/// The first place `b` occurs in `c`, if it does.
pub open spec fn first_index_of(c: Seq<u8>, b: u8) -> Option<int> {
    if exists|k: int| is_first_index(c, b, k) {
        Some(choose|k: int| is_first_index(c, b, k))
    } else {
        None
    }
}

pub proof fn lemma_first_index_unique(c: Seq<u8>, b: u8, k: int)
    requires
        is_first_index(c, b, k),
    ensures
        first_index_of(c, b) == Some(k),
{
    let k2 = choose|k: int| is_first_index(c, b, k);
    assert(is_first_index(c, b, k2));
    if k2 < k {
        assert(c[k2] != b);
    }
    if k < k2 {
        assert(c[k] != b);
    }
}

/// What scanning for a terminator found.
pub enum Scan {
    /// The bytes before the terminator.
    Found(Vec<u8>),
    /// The terminator is not there yet.
    Incomplete,
    /// The terminator is the very first byte.
    EmptyField,
}

/// The payload bytes unmasked with a key.
pub open spec fn unmask(p: Seq<u8>, key: [u8; 4]) -> Seq<u8> {
    Seq::new(p.len(), |i: int| p[i] ^ key[i % 4])
}

/// Append bytes to a buffer.
pub fn push_bytes(out: &mut Vec<u8>, data: &[u8])
    ensures
        final(out)@ == old(out)@ + data@,
{
    let mut i: usize = 0;
    while i < data.len()
        invariant
            0 <= i <= data@.len(),
            out@ == old(out)@ + data@.subrange(0, i as int),
        decreases data@.len() - i,
    {
        out.push(data[i]);
        i = i + 1;
        assert(out@ =~= old(out)@ + data@.subrange(0, i as int));
    }
    assert(data@.subrange(0, data@.len() as int) =~= data@);
}

/// The connection with bytes appended to its outbox.
pub open spec fn sent(v: ClientView, data: Seq<u8>) -> ClientView {
    ClientView { outbox: v.outbox + data, ..v }
}

/// The connection after answering 400 with `body` and closing.
pub open spec fn aborted(v: ClientView, body: Seq<u8>) -> ClientView {
    ClientView {
        outbox: v.outbox + "HTTP/1.1 400 Bad Request\r\n\r\n".spec_bytes() + body,
        closed: true,
        ..v
    }
}

/// The connection after answering 101 (the request has an accept key).
pub open spec fn upgraded(v: ClientView) -> ClientView {
    ClientView {
        inbox: Seq::<u8>::empty(),
        outbox: v.outbox
            + "HTTP/1.1 101 Switching Protocols\r\nConnection: upgrade\r\nUpgrade: websocket\r\nSec-Websocket-Accept: ".spec_bytes()
            + encode_utf8(v.accept->Some_0) + "\r\n\r\n".spec_bytes(),
        state: ClientControlState::WebSocketFirstTwo,
        ..v
    }
}

/// Reading a frame's first two bytes.
pub open spec fn step_first_two(v: ClientView) -> ClientView {
    if v.state == ClientControlState::WebSocketFirstTwo && v.inbox.len() >= 2 {
        ClientView {
            inbox: v.inbox.skip(2),
            frame: with_first_two(v.inbox[0], v.inbox[1]),
            state: ClientControlState::WebSocketExtLength,
            ..v
        }
    } else {
        v
    }
}

/// Reading the extended length: two big-endian bytes after a 126, eight
/// after a 127, none otherwise.
pub open spec fn step_ext_length(v: ClientView) -> ClientView {
    if v.state == ClientControlState::WebSocketExtLength {
        if v.frame.len == 126 {
            if v.inbox.len() >= 2 {
                ClientView {
                    inbox: v.inbox.skip(2),
                    frame: WebsocketFrameBuilder {
                        ext_len: Some(from_be2(v.inbox) as usize),
                        ..v.frame
                    },
                    state: ClientControlState::WebSocketMasking,
                    ..v
                }
            } else {
                v
            }
        } else if v.frame.len == 127 {
            if v.inbox.len() >= 8 {
                ClientView {
                    inbox: v.inbox.skip(8),
                    frame: WebsocketFrameBuilder {
                        ext_len: Some(from_be8(v.inbox) as usize),
                        ..v.frame
                    },
                    state: ClientControlState::WebSocketMasking,
                    ..v
                }
            } else {
                v
            }
        } else {
            ClientView { state: ClientControlState::WebSocketMasking, ..v }
        }
    } else {
        v
    }
}

/// Reading the masking key, when the frame is masked.
pub open spec fn step_masking(v: ClientView) -> ClientView {
    if v.state == ClientControlState::WebSocketMasking {
        if v.frame.mask {
            if v.inbox.len() >= 4 {
                ClientView {
                    inbox: v.inbox.skip(4),
                    frame: WebsocketFrameBuilder {
                        mask_key: Some([v.inbox[0], v.inbox[1], v.inbox[2], v.inbox[3]]),
                        ..v.frame
                    },
                    state: ClientControlState::WebSocketPayload,
                    ..v
                }
            } else {
                v
            }
        } else {
            ClientView { state: ClientControlState::WebSocketPayload, ..v }
        }
    } else {
        v
    }
}

/// Reading the payload once it has all arrived. A frame longer than 2048
/// bytes closes the connection. A binary frame (opcode 2) is a message; a
/// close frame (8) is answered with a close frame and closes; a ping (9) is
/// answered with a pong; anything else is dropped. Either way the next frame
/// follows.
pub open spec fn step_payload(v: ClientView) -> (ClientView, Option<PollOutcome>) {
    let n = frame_length(v.frame);
    if v.state == ClientControlState::WebSocketPayload && v.inbox.len() >= n {
        if n > 2048 {
            (ClientView { closed: true, ..v }, Some(PollOutcome::Sleep))
        } else if n == 0 {
            (v, Some(PollOutcome::Fault(ClientFault::EmptyPayload)))
        } else {
            match v.frame.mask_key {
                None => (v, Some(PollOutcome::Fault(ClientFault::UnmaskedPayload))),
                Some(key) => {
                    let payload = unmask(v.inbox.take(n as int), key);
                    let w = ClientView {
                        inbox: v.inbox.skip(n as int),
                        state: ClientControlState::WebSocketFirstTwo,
                        ..v
                    };
                    if v.frame.opcode == 2 {
                        (w, Some(PollOutcome::MessageReceived(v.id, payload)))
                    } else if v.frame.opcode == 8 {
                        (
                            ClientView { closed: true, ..sent(w, seq![0x88u8, 0u8]) },
                            Some(PollOutcome::Sleep),
                        )
                    } else if v.frame.opcode == 9 {
                        (sent(w, seq![0x8Au8, 0u8]), Some(PollOutcome::MaybeUnfinished))
                    } else {
                        (w, Some(PollOutcome::MaybeUnfinished))
                    }
                },
            }
        }
    } else {
        (v, None)
    }
}

/// Reading the request line: anything but `GET /game HTTP/1.1` is answered
/// 400.
pub open spec fn step_first_line(v: ClientView) -> ClientView {
    let req = request_line();
    if v.state == ClientControlState::HttpFirstLine && req.len() <= v.inbox.len() {
        if v.inbox.take(req.len() as int) == req {
            ClientView {
                inbox: v.inbox.skip(req.len() as int),
                state: ClientControlState::HttpHeaderName,
                ..v
            }
        } else {
            aborted(
                ClientView { inbox: v.inbox.skip(first_mismatch(v.inbox, req) + 1), ..v },
                "Only GET requests to /game (no trailing slash) are permitted.".spec_bytes(),
            )
        }
    } else {
        v
    }
}

/// At the start of a header line: whitespace there means the empty line that
/// ends the request, which is upgraded if the checklist is complete and
/// answered 400 otherwise.
pub open spec fn step_shim(v: ClientView) -> (ClientView, Option<PollOutcome>) {
    if v.state == ClientControlState::HttpHeaderNameStartCheckShim && v.inbox.len() > 0 {
        if is_ascii_ws(v.inbox[0]) {
            if v.accept is Some && v.connection_upgrade && v.upgrade_websocket {
                (upgraded(v), Some(PollOutcome::ClientUpgraded(v.id)))
            } else {
                (aborted(v, "All requests must upgrade to websockets.".spec_bytes()), None)
            }
        } else {
            (ClientView { state: ClientControlState::HttpHeaderName, ..v }, None)
        }
    } else {
        (v, None)
    }
}

/// Reading a header name, up to its `:`, after any whitespace.
pub open spec fn step_header_name(v: ClientView) -> (ClientView, Option<PollOutcome>) {
    if v.state == ClientControlState::HttpHeaderName {
        let k = leading_ws(v.inbox);
        let t = v.inbox.skip(k);
        if k < v.inbox.len() {
            match first_index_of(t, 0x3Au8) {
                Some(i) => if i > 0 {
                    (
                        ClientView {
                            inbox: t.skip(i + 1),
                            header: t.take(i),
                            state: ClientControlState::HttpHeaderValue,
                            ..v
                        },
                        None,
                    )
                } else {
                    (
                        ClientView { inbox: t, ..v },
                        Some(PollOutcome::Fault(ClientFault::EmptyHeaderField)),
                    )
                },
                None => (ClientView { inbox: Seq::<u8>::empty(), ..v }, None),
            }
        } else {
            (ClientView { inbox: t, ..v }, None)
        }
    } else {
        (v, None)
    }
}

/// What a header line records in the checklist: `Connection: keep-alive,
/// Upgrade`, `Upgrade: websocket`, and the accept key computed from
/// `Sec-WebSocket-Key` (whose value must be UTF-8).
pub open spec fn record_header(v: ClientView, value: Seq<u8>) -> (ClientView, Option<PollOutcome>) {
    if v.header == "Connection".spec_bytes() && value == "keep-alive, Upgrade".spec_bytes() {
        (ClientView { connection_upgrade: true, ..v }, None)
    } else if v.header == "Upgrade".spec_bytes() && value == "websocket".spec_bytes() {
        (ClientView { upgrade_websocket: true, ..v }, None)
    } else if v.header == "Sec-WebSocket-Key".spec_bytes() {
        if valid_utf8(value) {
            (ClientView { accept: Some(accept_key(value)), ..v }, None)
        } else {
            (v, Some(PollOutcome::Fault(ClientFault::KeyNotUtf8)))
        }
    } else {
        (v, None)
    }
}

/// Reading a header value, up to the end of the line, after any whitespace;
/// it is trimmed and recorded, and the next line starts.
pub open spec fn step_header_value(v: ClientView) -> (ClientView, Option<PollOutcome>) {
    if v.state == ClientControlState::HttpHeaderValue {
        let k = leading_ws(v.inbox);
        let t = v.inbox.skip(k);
        if k < v.inbox.len() {
            match first_index_of(t, 0x0Au8) {
                Some(i) => if i > 0 {
                    let w = ClientView { inbox: t.skip(i + 1), ..v };
                    let (x, fault) = record_header(w, trimmed(t.take(i)));
                    match fault {
                        Some(f) => (x, Some(f)),
                        None => (
                            ClientView {
                                state: ClientControlState::HttpHeaderNameStartCheckShim,
                                ..x
                            },
                            Some(PollOutcome::MaybeUnfinished),
                        ),
                    }
                } else {
                    (
                        ClientView { inbox: t, ..v },
                        Some(PollOutcome::Fault(ClientFault::EmptyHeaderField)),
                    )
                },
                None => (ClientView { inbox: Seq::<u8>::empty(), ..v }, None),
            }
        } else {
            (ClientView { inbox: t, ..v }, None)
        }
    } else {
        (v, None)
    }
}

/// One round of polling: the frame stages in order, then the request stages
/// in order, each starting where the last left the connection, until one of
/// them has something to report. With nothing to report, the round says
/// whether the state moved.
pub open spec fn spec_poll(v: ClientView) -> (ClientView, PollOutcome) {
    let v3 = step_masking(step_ext_length(step_first_two(v)));
    let (v4, o4) = step_payload(v3);
    if o4 is Some {
        (v4, o4->Some_0)
    } else {
        let v5 = step_first_line(v4);
        let (v6, o6) = step_shim(v5);
        if o6 is Some {
            (v6, o6->Some_0)
        } else {
            let (v7, o7) = step_header_name(v6);
            if o7 is Some {
                (v7, o7->Some_0)
            } else {
                let (v8, o8) = step_header_value(v7);
                if o8 is Some {
                    (v8, o8->Some_0)
                } else if v.state != v8.state {
                    (v8, PollOutcome::MaybeUnfinished)
                } else {
                    (v8, PollOutcome::Sleep)
                }
            }
        }
    }
}

impl Client {
    /// A connection that has received nothing: an empty 4096-byte inbox,
    /// waiting for the request line.
    pub fn new_from(id: ClientId) -> (r: Client)
        ensures
            r@.id == id,
            r@.inbox == Seq::<u8>::empty(),
            r@.capacity == 4096,
            r@.outbox == Seq::<u8>::empty(),
            !r@.closed,
            r@.state == ClientControlState::HttpFirstLine,
            r@.header == Seq::<u8>::empty(),
            !r@.connection_upgrade,
            !r@.upgrade_websocket,
            r@.accept is None,
            r@.frame == WebsocketFrameBuilder::spec_default(),
    {
        Client {
            id,
            inbox: ByteRing::new(4096),
            outbox: Vec::new(),
            closed: false,
            control_state: ClientControlState::HttpFirstLine,
            header_buffer: Vec::new(),
            checklist: HttpUpgradeChecklist::default(),
            frame: WebsocketFrameBuilder::default(),
        }
    }

    /// Append bytes to the outbox.
    pub fn send_raw(&mut self, data: &[u8])
        ensures
            final(self)@ == (ClientView { outbox: old(self)@.outbox + data@, ..old(self)@ }),
    {
        push_bytes(&mut self.outbox, data);
    }

    /// Answer 400 with `body` and close.
    pub fn error_abort(&mut self, body: &[u8])
        ensures
            final(self)@ == (ClientView {
                outbox: old(self)@.outbox + "HTTP/1.1 400 Bad Request\r\n\r\n".spec_bytes() + body@,
                closed: true,
                ..old(self)@
            }),
    {
        self.send_raw("HTTP/1.1 400 Bad Request\r\n\r\n".as_bytes());
        self.send_raw(body);
        self.closed = true;
    }

    /// Answer 101 with the accept key, dropping whatever else was received.
    pub fn upgrade(&mut self)
        requires
            old(self)@.accept is Some,
        ensures
            final(self)@ == (ClientView {
                inbox: Seq::<u8>::empty(),
                outbox: old(self)@.outbox
                    + "HTTP/1.1 101 Switching Protocols\r\nConnection: upgrade\r\nUpgrade: websocket\r\nSec-Websocket-Accept: ".spec_bytes()
                    + encode_utf8(old(self)@.accept->Some_0) + "\r\n\r\n".spec_bytes(),
                ..old(self)@
            }),
    {
        self.inbox.clear();
        self.send_raw("HTTP/1.1 101 Switching Protocols\r\nConnection: upgrade\r\nUpgrade: websocket\r\nSec-Websocket-Accept: ".as_bytes());
        match &self.checklist.websocket_accept {
            Some(accept) => {
                push_bytes(&mut self.outbox, accept.as_str().as_bytes());
            },
            None => {},
        }
        self.send_raw("\r\n\r\n".as_bytes());
    }

    /// Consume `data.len()` bytes and say whether they are `data`; on a
    /// mismatch, stop after the first differing byte. `None` when fewer bytes
    /// than that have arrived (nothing is consumed).
    pub fn match_or_incomplete(&mut self, data: &[u8]) -> (r: Option<bool>)
        ensures
            ({
                let c = old(self)@.inbox;
                &&& data@.len() > c.len() ==> r is None && final(self)@ == old(self)@
                &&& data@.len() <= c.len() && c.take(data@.len() as int) == data@ ==> r == Some(true)
                    && final(self)@ == (ClientView { inbox: c.skip(data@.len() as int), ..old(self)@ })
                &&& data@.len() <= c.len() && c.take(data@.len() as int) != data@ ==> r == Some(false)
                    && final(self)@ == (ClientView { inbox: c.skip(first_mismatch(c, data@) + 1), ..old(self)@ })
            }),
    {
        let ghost c = self@.inbox;
        if data.len() <= self.inbox.occupied_len() {
            let mut i: usize = 0;
            assert(c.skip(0) =~= c);
            while i < data.len()
                invariant
                    0 <= i <= data@.len() <= c.len(),
                    c == old(self)@.inbox,
                    self@ == (ClientView { inbox: c.skip(i as int), ..old(self)@ }),
                    forall|j: int| 0 <= j < i ==> c[j] == data@[j],
                decreases data@.len() - i,
            {
                assert(ring_contents(self.inbox) == c.skip(i as int));
                assert(c.skip(i as int).len() > 0);
                if let Some(d) = self.inbox.try_pop() {
                    assert(d == c[i as int]);
                    if d != data[i] {
                        proof {
                            lemma_first_mismatch_unique(c, data@, i as int);
                            assert(c.skip(i as int).drop_first() =~= c.skip(i + 1));
                            if c.take(data@.len() as int) == data@ {
                                assert(c.take(data@.len() as int)[i as int] == c[i as int]);
                            }
                            assert(c.take(data@.len() as int) != data@);
                            assert(first_mismatch(c, data@) == i);
                            assert(self@.inbox == c.skip(i + 1));
                            assert(self@ =~= (ClientView { inbox: c.skip(first_mismatch(c, data@) + 1), ..old(self)@ }));
                        }
                        return Some(false);
                    }
                    proof {
                        assert(c.skip(i as int).drop_first() =~= c.skip(i + 1));
                    }
                } else {
                    return Some(false);
                }
                i = i + 1;
            }
            assert(c.take(data@.len() as int) =~= data@);
            Some(true)
        } else {
            None
        }
    }

    /// Fill `buf` from the inbox if enough bytes have arrived.
    pub fn fill_or_incomplete(&mut self, buf: &mut [u8]) -> (r: bool)
        requires
            old(buf)@.len() > 0,
        ensures
            ({
                let c = old(self)@.inbox;
                let n = old(buf)@.len();
                &&& c.len() >= n ==> r && final(buf)@ == c.take(n as int)
                    && final(self)@ == (ClientView { inbox: c.skip(n as int), ..old(self)@ })
                &&& c.len() < n ==> !r && final(buf)@ == old(buf)@ && final(self)@ == old(self)@
            }),
    {
        if self.inbox.occupied_len() >= buf.len() {
            self.inbox.pop_slice(buf);
            assert(buf@ =~= old(self)@.inbox.take(old(buf)@.len() as int));
            return true;
        }
        false
    }

    /// Skip leading whitespace; say whether a byte that is not whitespace is
    /// now first.
    pub fn require_trimmed(&mut self) -> (r: bool)
        ensures
            ({
                let c = old(self)@.inbox;
                &&& is_ws_run(c, leading_ws(c))
                &&& final(self)@ == (ClientView { inbox: c.skip(leading_ws(c)), ..old(self)@ })
                &&& r == (leading_ws(c) < c.len())
            }),
    {
        let ghost c = self@.inbox;
        let ghost mut i: int = 0;
        assert(c.skip(0) =~= c);
        loop
            invariant
                0 <= i <= c.len(),
                c == old(self)@.inbox,
                self@ == (ClientView { inbox: c.skip(i), ..old(self)@ }),
                forall|j: int| 0 <= j < i ==> is_ascii_ws(#[trigger] c[j]),
            decreases c.len() - i,
        {
            match self.inbox.try_peek() {
                Some(b) => {
                    if ascii_whitespace(b) {
                        self.inbox.skip(1);
                        proof {
                            assert(c.skip(i)[0] == c[i]);
                            assert(c.skip(i).skip(1) =~= c.skip(i + 1));
                            i = i + 1;
                        }
                    } else {
                        proof {
                            assert(c.skip(i)[0] == c[i]);
                            lemma_leading_ws_unique(c, i);
                        }
                        return true;
                    }
                },
                None => {
                    proof {
                        lemma_leading_ws_unique(c, i);
                    }
                    return false;
                },
            }
        }
    }

    /// Whether the first byte is whitespace; `None` if nothing has arrived.
    pub fn check_whitespace(&self) -> (r: Option<bool>)
        ensures
            self@.inbox.len() == 0 ==> r is None,
            self@.inbox.len() > 0 ==> r == Some(is_ascii_ws(self@.inbox[0])),
    {
        if let Some(b) = self.inbox.try_peek() {
            return Some(ascii_whitespace(b));
        }
        None
    }

    /// Take the bytes before the first `until`, consuming the terminator too.
    /// When `until` has not arrived, everything received so far is consumed
    /// and lost. When `until` is first, nothing is consumed.
    pub fn match_until_or_incomplete(&mut self, until: u8) -> (r: Scan)
        ensures
            ({
                let c = old(self)@.inbox;
                match first_index_of(c, until) {
                    Some(k) => if k > 0 {
                        r matches Scan::Found(v) && v@ == c.take(k)
                            && final(self)@ == (ClientView { inbox: c.skip(k + 1), ..old(self)@ })
                    } else {
                        r is EmptyField && final(self)@ == old(self)@
                    },
                    None => r is Incomplete
                        && final(self)@ == (ClientView { inbox: Seq::<u8>::empty(), ..old(self)@ }),
                }
            }),
    {
        let ghost c = self@.inbox;
        let n = self.inbox.occupied_len();
        let mut scan = vec![0u8; n];
        self.inbox.peek_slice(scan.as_mut_slice());
        assert(scan@ =~= c);
        let mut count: usize = 0;
        while count < n && scan[count] != until
            invariant
                0 <= count <= n,
                n == c.len(),
                scan@ == c,
                forall|j: int| 0 <= j < count ==> c[j] != until,
            decreases n - count,
        {
            count = count + 1;
        }
        if count == n {
            proof {
                if exists|k: int| is_first_index(c, until, k) {
                    let k = choose|k: int| is_first_index(c, until, k);
                    assert(c[k] != until);
                }
            }
            self.inbox.skip(n);
            assert(c.skip(n as int) =~= Seq::<u8>::empty());
            return Scan::Incomplete;
        }
        proof {
            lemma_first_index_unique(c, until, count as int);
        }
        if count == 0 {
            return Scan::EmptyField;
        }
        let mut result = vec![0u8; count];
        self.inbox.pop_slice(result.as_mut_slice());
        assert(result@ =~= c.take(count as int));
        self.inbox.skip(1);
        assert(c.skip(count as int).skip(1) =~= c.skip(count + 1));
        Scan::Found(result)
    }

    /// Take in a chunk read from the socket. An empty chunk means the peer
    /// closed; a chunk that does not fit in the inbox closes the connection.
    /// Returns whether to keep reading: only after a full chunk of
    /// `chunk_size` bytes.
    pub fn receive_chunk(&mut self, chunk: &[u8], chunk_size: usize) -> (more: bool)
        ensures
            ({
                let c = old(self)@.inbox;
                let room = old(self)@.capacity - c.len();
                &&& chunk@.len() == 0 ==> !more && final(self)@ == (ClientView { closed: true, ..old(self)@ })
                &&& chunk@.len() > room ==> !more
                    && final(self)@ == (ClientView { inbox: c + chunk@.take(room), closed: true, ..old(self)@ })
                &&& 0 < chunk@.len() <= room ==> more == (chunk@.len() >= chunk_size)
                    && final(self)@ == (ClientView { inbox: c + chunk@, ..old(self)@ })
            }),
    {
        let held = self.inbox.occupied_len();
        assert(held <= ring_capacity(self.inbox));
        if chunk.len() == 0 {
            self.closed = true;
            return false;
        }
        let pushed = self.inbox.push_slice(chunk);
        if pushed < chunk.len() {
            self.closed = true;
            return false;
        }
        assert(chunk@.take(chunk@.len() as int) =~= chunk@);
        chunk.len() >= chunk_size
    }

    /// The first two bytes of a frame.
    fn read_frame_start(&mut self)
        ensures
            final(self)@ == step_first_two(old(self)@),
    {
        if self.control_state == ClientControlState::WebSocketFirstTwo {
            let mut buf = vec![0u8; 2];
            if self.fill_or_incomplete(buf.as_mut_slice()) {
                self.frame.read_first_two(buf[0], buf[1]);
                self.control_state = ClientControlState::WebSocketExtLength;
                assert(self@ =~= step_first_two(old(self)@));
            }
        }
    }

    /// The extended length of a frame.
    fn read_ext_length(&mut self)
        ensures
            final(self)@ == step_ext_length(old(self)@),
    {
        if self.control_state == ClientControlState::WebSocketExtLength {
            if self.frame.len == 126 {
                let mut buf = vec![0u8; 2];
                if self.fill_or_incomplete(buf.as_mut_slice()) {
                    let l: u16 = ((buf[0] as u16) << 8) | (buf[1] as u16);
                    self.frame.ext_len = Some(l as usize);
                    self.control_state = ClientControlState::WebSocketMasking;
                    assert(self@ =~= step_ext_length(old(self)@));
                }
            } else if self.frame.len == 127 {
                let mut buf = vec![0u8; 8];
                if self.fill_or_incomplete(buf.as_mut_slice()) {
                    let l: u64 = ((buf[0] as u64) << 56) | ((buf[1] as u64) << 48) | ((buf[2] as u64)
                        << 40) | ((buf[3] as u64) << 32) | ((buf[4] as u64) << 24) | ((buf[5] as u64)
                        << 16) | ((buf[6] as u64) << 8) | (buf[7] as u64);
                    self.frame.ext_len = Some(l as usize);
                    self.control_state = ClientControlState::WebSocketMasking;
                    assert(self@ =~= step_ext_length(old(self)@));
                }
            } else {
                self.control_state = ClientControlState::WebSocketMasking;
            }
        }
    }

    /// The masking key of a frame.
    fn read_masking_key(&mut self)
        ensures
            final(self)@ == step_masking(old(self)@),
    {
        if self.control_state == ClientControlState::WebSocketMasking {
            if self.frame.mask {
                let mut buf = vec![0u8; 4];
                if self.fill_or_incomplete(buf.as_mut_slice()) {
                    self.frame.mask_key = Some([buf[0], buf[1], buf[2], buf[3]]);
                    self.control_state = ClientControlState::WebSocketPayload;
                    assert(self@ =~= step_masking(old(self)@));
                }
            } else {
                self.control_state = ClientControlState::WebSocketPayload;
            }
        }
    }

    /// The payload of a frame.
    fn read_payload(&mut self) -> (r: Option<ClientControllerEvent>)
        ensures
            final(self)@ == step_payload(old(self)@).0,
            outcome_opt(r) == step_payload(old(self)@).1,
    {
        if self.control_state == ClientControlState::WebSocketPayload {
            let n = self.frame.length();
            if self.inbox.occupied_len() >= n {
                if n > 2048 {
                    self.closed = true;
                    return Some(ClientControllerEvent::Sleep);
                }
                if n == 0 {
                    return Some(ClientControllerEvent::Fault(ClientFault::EmptyPayload));
                }
                let key = match self.frame.mask_key {
                    Some(k) => k,
                    None => {
                        return Some(ClientControllerEvent::Fault(ClientFault::UnmaskedPayload));
                    },
                };
                let ghost c = self@.inbox;
                let mut buffer = vec![0u8; n];
                self.inbox.pop_slice(buffer.as_mut_slice());
                let ghost raw = buffer@;
                assert(raw =~= c.take(n as int));
                let mut i: usize = 0;
                while i < n
                    invariant
                        0 <= i <= n,
                        raw.len() == n,
                        buffer@.len() == n,
                        forall|j: int| 0 <= j < i ==> buffer@[j] == raw[j] ^ key[j % 4],
                        forall|j: int| i <= j < n ==> buffer@[j] == raw[j],
                    decreases n - i,
                {
                    buffer[i] = buffer[i] ^ key[i % 4];
                    i = i + 1;
                }
                assert(buffer@ =~= unmask(c.take(n as int), key));
                self.control_state = ClientControlState::WebSocketFirstTwo;
                if self.frame.opcode == 2 {
                    assert(self@ =~= step_payload(old(self)@).0);
                    return Some(ClientControllerEvent::MessageReceived(self.id, buffer));
                } else if self.frame.opcode == 8 {
                    let reply = vec![0b1000_1000u8, 0u8];
                    self.send_raw(reply.as_slice());
                    self.closed = true;
                    assert(self@ =~= step_payload(old(self)@).0);
                    return Some(ClientControllerEvent::Sleep);
                } else if self.frame.opcode == 9 {
                    let reply = vec![0b1000_1010u8, 0u8];
                    self.send_raw(reply.as_slice());
                }
                assert(self@ =~= step_payload(old(self)@).0);
                return Some(ClientControllerEvent::MaybeUnfinished);
            }
        }
        None
    }

    /// The request line.
    fn read_request_line(&mut self)
        ensures
            final(self)@ == step_first_line(old(self)@),
    {
        if self.control_state == ClientControlState::HttpFirstLine {
            if let Some(val) = self.match_or_incomplete("GET /game HTTP/1.1\r\n".as_bytes()) {
                if val {
                    self.control_state = ClientControlState::HttpHeaderName;
                } else {
                    self.error_abort(
                        "Only GET requests to /game (no trailing slash) are permitted.".as_bytes(),
                    );
                }
            }
        }
    }

    /// The start of a header line, or the empty line that ends the request.
    fn check_header_start(&mut self) -> (r: Option<ClientControllerEvent>)
        ensures
            final(self)@ == step_shim(old(self)@).0,
            outcome_opt(r) == step_shim(old(self)@).1,
    {
        if self.control_state == ClientControlState::HttpHeaderNameStartCheckShim {
            if let Some(w) = self.check_whitespace() {
                if w {
                    if self.checklist.will_upgrade() {
                        self.upgrade();
                        self.control_state = ClientControlState::WebSocketFirstTwo;
                        return Some(ClientControllerEvent::ClientUpgraded(self.id));
                    } else {
                        self.error_abort("All requests must upgrade to websockets.".as_bytes());
                    }
                } else {
                    self.control_state = ClientControlState::HttpHeaderName;
                }
            }
        }
        None
    }

    /// A header name.
    fn read_header_name(&mut self) -> (r: Option<ClientControllerEvent>)
        ensures
            final(self)@ == step_header_name(old(self)@).0,
            outcome_opt(r) == step_header_name(old(self)@).1,
    {
        if self.control_state == ClientControlState::HttpHeaderName {
            if self.require_trimmed() {
                match self.match_until_or_incomplete(0x3A) {
                    Scan::Found(name) => {
                        self.header_buffer = name;
                        self.control_state = ClientControlState::HttpHeaderValue;
                    },
                    Scan::Incomplete => {},
                    Scan::EmptyField => {
                        return Some(ClientControllerEvent::Fault(ClientFault::EmptyHeaderField));
                    },
                }
            }
        }
        None
    }

    /// A header value, recorded in the checklist.
    fn read_header_value(&mut self) -> (r: Option<ClientControllerEvent>)
        ensures
            final(self)@ == step_header_value(old(self)@).0,
            outcome_opt(r) == step_header_value(old(self)@).1,
    {
        if self.control_state == ClientControlState::HttpHeaderValue {
            let ghost c = self@.inbox;
            if self.require_trimmed() {
                let ghost t = self@.inbox;
                match self.match_until_or_incomplete(0x0A) {
                    Scan::Found(value) => {
                        proof {
                            assert(t[0] == c[leading_ws(c)]);
                            assert(!is_ascii_ws(value@[0]));
                        }
                        let trimmed_value = byte_trim(value.as_slice());
                        let ghost w = self@;
                        if bytes_eq(self.header_buffer.as_slice(), "Connection".as_bytes())
                            && bytes_eq(trimmed_value, "keep-alive, Upgrade".as_bytes()) {
                            self.checklist.connection_upgrade = true;
                        } else if bytes_eq(self.header_buffer.as_slice(), "Upgrade".as_bytes())
                            && bytes_eq(trimmed_value, "websocket".as_bytes()) {
                            self.checklist.upgrade_websocket = true;
                        } else if bytes_eq(
                            self.header_buffer.as_slice(),
                            "Sec-WebSocket-Key".as_bytes(),
                        ) {
                            match str_from_utf8(trimmed_value) {
                                Some(_) => {
                                    self.checklist.websocket_accept = Some(
                                        compute_accept_key(trimmed_value),
                                    );
                                },
                                None => {
                                    return Some(
                                        ClientControllerEvent::Fault(ClientFault::KeyNotUtf8),
                                    );
                                },
                            }
                        }
                        self.control_state = ClientControlState::HttpHeaderNameStartCheckShim;
                        return Some(ClientControllerEvent::MaybeUnfinished);
                    },
                    Scan::Incomplete => {},
                    Scan::EmptyField => {
                        return Some(ClientControllerEvent::Fault(ClientFault::EmptyHeaderField));
                    },
                }
            }
        }
        None
    }

    /// One round of work on what has been received; see `spec_poll`.
    pub fn poll(&mut self) -> (r: ClientControllerEvent)
        ensures
            final(self)@ == spec_poll(old(self)@).0,
            outcome(r) == spec_poll(old(self)@).1,
    {
        let old_control_state = self.control_state;
        self.read_frame_start();
        self.read_ext_length();
        self.read_masking_key();
        if let Some(e) = self.read_payload() {
            return e;
        }
        self.read_request_line();
        if let Some(e) = self.check_header_start() {
            return e;
        }
        if let Some(e) = self.read_header_name() {
            return e;
        }
        if let Some(e) = self.read_header_value() {
            return e;
        }
        if old_control_state != self.control_state {
            ClientControllerEvent::MaybeUnfinished
        } else {
            ClientControllerEvent::Sleep
        }
    }
}

/// A connection that was closed stays closed, whatever a round of polling
/// finds.
pub proof fn law_closed_stays_closed(v: ClientView)
    requires
        v.closed,
    ensures
        spec_poll(v).0.closed,
{
}

/// Replies are only ever appended: a round of polling never takes back what
/// is waiting in the outbox.
pub proof fn law_outbox_only_grows(v: ClientView)
    ensures
        spec_poll(v).0.outbox.len() >= v.outbox.len(),
        spec_poll(v).0.outbox.subrange(0, v.outbox.len() as int) == v.outbox,
{
    let v1 = step_first_two(v);
    let v2 = step_ext_length(v1);
    let v3 = step_masking(v2);
    let (v4, o4) = step_payload(v3);
    let v5 = step_first_line(v4);
    let (v6, o6) = step_shim(v5);
    let (v7, o7) = step_header_name(v6);
    let (v8, o8) = step_header_value(v7);
    assert(v3.outbox == v.outbox);
    assert(v4.outbox.subrange(0, v.outbox.len() as int) =~= v.outbox);
    assert(v5.outbox.subrange(0, v.outbox.len() as int) =~= v.outbox);
    assert(v6.outbox.subrange(0, v.outbox.len() as int) =~= v.outbox);
    assert(v7.outbox == v6.outbox);
    assert(v8.outbox == v7.outbox);
}

/// A binary message is delivered exactly as the client masked it: unmasking
/// with the same key gives back the bytes the client meant to send.
pub proof fn law_unmask_undoes_masking(p: Seq<u8>, key: [u8; 4])
    ensures
        unmask(unmask(p, key), key) == p,
{
    assert forall|i: int| 0 <= i < p.len() implies #[trigger] unmask(unmask(p, key), key)[i]
        == p[i] by {
        let b = p[i];
        let k = key[i % 4];
        assert((b ^ k) ^ k == b) by (bit_vector);
    }
    assert(unmask(unmask(p, key), key) =~= p);
}

/// The bytes of a final binary frame of a short payload (1 to 125 bytes)
/// as a client sends it: masked with `key`.
pub open spec fn masked_frame(payload: Seq<u8>, key: [u8; 4]) -> Seq<u8> {
    seq![0x82u8, 0x80u8 | (payload.len() as u8), key[0], key[1], key[2], key[3]] + unmask(payload, key)
}

/// What a client writes is what the server reads: a connection reading
/// frames that has received a client's masked binary frame of a short
/// payload delivers that payload as one message in a single round, consumes
/// exactly the frame's bytes and waits for the next frame, whatever frames
/// came before.
pub proof fn law_client_frame_is_delivered(v: ClientView, payload: Seq<u8>, key: [u8; 4], rest: Seq<u8>)
    requires
        v.state == ClientControlState::WebSocketFirstTwo,
        1 <= payload.len() <= 125,
        v.inbox == masked_frame(payload, key) + rest,
    ensures
        spec_poll(v).1 == PollOutcome::MessageReceived(v.id, payload),
        spec_poll(v).0.inbox == rest,
        spec_poll(v).0.state == ClientControlState::WebSocketFirstTwo,
        spec_poll(v).0.outbox == v.outbox,
        spec_poll(v).0.closed == v.closed,
{
    let n = payload.len();
    let nb = n as u8;
    assert((0x82u8 & 0x80) >> 7 == 1 && (0x82u8 & 0x70) >> 4 == 0 && 0x82u8 & 0x0F == 2) by (bit_vector);
    assert(1 <= nb <= 125 ==> ((0x80u8 | nb) & 0x80) >> 7 == 1 && (0x80u8 | nb) & 0x7F == nb) by (bit_vector);
    let v1 = step_first_two(v);
    assert(v1.frame.len == nb && v1.frame.mask && v1.frame.opcode == 2);
    assert(v1.inbox =~= seq![key[0], key[1], key[2], key[3]] + unmask(payload, key) + rest);
    let v2 = step_ext_length(v1);
    let v3 = step_masking(v2);
    assert(v3.frame.mask_key == Some([key[0], key[1], key[2], key[3]]));
    assert([key[0], key[1], key[2], key[3]] =~= key);
    assert(v3.inbox =~= unmask(payload, key) + rest);
    assert(v3.inbox.take(n as int) =~= unmask(payload, key));
    assert(v3.inbox.skip(n as int) =~= rest);
    law_unmask_undoes_masking(payload, key);
}

/// What the server writes is what a frame reader reads: a connection reading
/// frames that has received a header `make_header` writes reads a final, unmasked binary frame of exactly that length, and
/// consumes exactly the header's bytes.
pub proof fn law_server_header_is_read(v: ClientView, length: usize, rest: Seq<u8>)
    requires
        v.state == ClientControlState::WebSocketFirstTwo,
        v.inbox == header_for(length) + rest,
    ensures
        ({
            let w = step_ext_length(step_first_two(v));
            &&& w.state == ClientControlState::WebSocketMasking
            &&& w.inbox == rest
            &&& frame_length(w.frame) == length
            &&& w.frame.fin
            &&& w.frame.opcode == 2
            &&& !w.frame.mask
        }),
{
    law_header_reads_back(length);
    let h = header_for(length);
    assert(v.inbox.skip(2) =~= h.skip(2) + rest);
    if length > 125 && length <= 65535 {
        assert(h.skip(2).skip(2) =~= Seq::<u8>::empty());
        assert(v.inbox.skip(2).skip(2) =~= rest);
        assert(from_be2(v.inbox.skip(2)) == from_be2(h.skip(2)));
    } else if length > 65535 {
        assert(v.inbox.skip(2).skip(8) =~= rest);
        assert(from_be8(v.inbox.skip(2)) == from_be8(h.skip(2)));
    } else {
        assert(v.inbox.skip(2) =~= rest);
    }
}

/// After the request is upgraded the connection reads frames, and nothing
/// that was received before the upgrade is read as a frame.
pub proof fn law_upgrade_starts_framing(v: ClientView)
    requires
        v.state == ClientControlState::HttpHeaderNameStartCheckShim,
        v.inbox.len() > 0,
        is_ascii_ws(v.inbox[0]),
        v.accept is Some,
        v.connection_upgrade,
        v.upgrade_websocket,
    ensures
        spec_poll(v).1 == PollOutcome::ClientUpgraded(v.id),
        spec_poll(v).0.state == ClientControlState::WebSocketFirstTwo,
        spec_poll(v).0.inbox.len() == 0,
{
}

} // verus!
