//! The gateway protocol state machine.
//!
//! One `Session` tracks the bookkeeping a single streaming connection
//! carries: the last-seen sequence number, the server-issued session
//! identifier, the heartbeat interval announced in Hello, and whether
//! the last heartbeat was acknowledged. `handle_frame` is the opcode
//! handler: it takes one decoded inbound frame and returns the action
//! the connection's driver must perform. The driver (outside this
//! crate) owns the transport; every protocol decision is taken here.
//!
//! Reconnect policy, settled here because the wire contract leaves it
//! open: on a server-requested reconnect and on any close code that
//! does not invalidate the session, the sequence and session id are
//! preserved so a resume can be attempted; on an invalid session, a
//! session-scoped close code, or a clean close, both are discarded and
//! the connection identifies from scratch; on a close code that marks
//! the configuration itself as unacceptable the connection is fatal.

use vstd::prelude::*;
use crate::errors::DiscordError;

verus! {

/// The opcodes of the wire contract. The numeric code of each variant
/// is given by `spec_opcode_num` and `as_u64` (code 5 is unassigned,
/// so a raw cast of the variants after `VoiceStateUpdate` is not the
/// wire code).
#[derive(Debug, Clone, Copy, PartialEq, Eq, Structural)]
pub enum GatewayOpcode {
    Dispatch,
    Heartbeat,
    Identify,
    PresenceUpdate,
    VoiceStateUpdate,
    Resume,
    Reconnect,
    RequestGuildMembers,
    InvalidSession,
    Hello,
    HeartbeatAck,
}

/// The numeric code of each opcode, fixed by the wire contract.
pub open spec fn spec_opcode_num(op: GatewayOpcode) -> u64 {
    match op {
        GatewayOpcode::Dispatch => 0,
        GatewayOpcode::Heartbeat => 1,
        GatewayOpcode::Identify => 2,
        GatewayOpcode::PresenceUpdate => 3,
        GatewayOpcode::VoiceStateUpdate => 4,
        GatewayOpcode::Resume => 6,
        GatewayOpcode::Reconnect => 7,
        GatewayOpcode::RequestGuildMembers => 8,
        GatewayOpcode::InvalidSession => 9,
        GatewayOpcode::Hello => 10,
        GatewayOpcode::HeartbeatAck => 11,
    }
}

/// The opcode a numeric code stands for; 5 and everything above 11 are
/// unassigned.
pub open spec fn spec_opcode_of(value: u64) -> Option<GatewayOpcode> {
    if value == 0 {
        Some(GatewayOpcode::Dispatch)
    } else if value == 1 {
        Some(GatewayOpcode::Heartbeat)
    } else if value == 2 {
        Some(GatewayOpcode::Identify)
    } else if value == 3 {
        Some(GatewayOpcode::PresenceUpdate)
    } else if value == 4 {
        Some(GatewayOpcode::VoiceStateUpdate)
    } else if value == 6 {
        Some(GatewayOpcode::Resume)
    } else if value == 7 {
        Some(GatewayOpcode::Reconnect)
    } else if value == 8 {
        Some(GatewayOpcode::RequestGuildMembers)
    } else if value == 9 {
        Some(GatewayOpcode::InvalidSession)
    } else if value == 10 {
        Some(GatewayOpcode::Hello)
    } else if value == 11 {
        Some(GatewayOpcode::HeartbeatAck)
    } else {
        None
    }
}

impl GatewayOpcode {
    pub fn from_u64(value: u64) -> (r: Option<Self>)
        ensures
            r == spec_opcode_of(value),
    {
        match value {
            0 => Some(GatewayOpcode::Dispatch),
            1 => Some(GatewayOpcode::Heartbeat),
            2 => Some(GatewayOpcode::Identify),
            3 => Some(GatewayOpcode::PresenceUpdate),
            4 => Some(GatewayOpcode::VoiceStateUpdate),
            6 => Some(GatewayOpcode::Resume),
            7 => Some(GatewayOpcode::Reconnect),
            8 => Some(GatewayOpcode::RequestGuildMembers),
            9 => Some(GatewayOpcode::InvalidSession),
            10 => Some(GatewayOpcode::Hello),
            11 => Some(GatewayOpcode::HeartbeatAck),
            _ => None,
        }
    }

    pub fn as_u64(&self) -> (r: u64)
        ensures
            r == spec_opcode_num(*self),
    {
        match self {
            GatewayOpcode::Dispatch => 0,
            GatewayOpcode::Heartbeat => 1,
            GatewayOpcode::Identify => 2,
            GatewayOpcode::PresenceUpdate => 3,
            GatewayOpcode::VoiceStateUpdate => 4,
            GatewayOpcode::Resume => 6,
            GatewayOpcode::Reconnect => 7,
            GatewayOpcode::RequestGuildMembers => 8,
            GatewayOpcode::InvalidSession => 9,
            GatewayOpcode::Hello => 10,
            GatewayOpcode::HeartbeatAck => 11,
        }
    }
}

/// Numeric codes round-trip through the opcode table: every assigned
/// code decodes to the opcode that encodes back to it, and every
/// opcode's code decodes to that opcode.
pub proof fn lemma_opcode_round_trip(value: u64, op: GatewayOpcode)
    ensures
        spec_opcode_of(value) is Some ==> spec_opcode_num(spec_opcode_of(value)->0) == value,
        spec_opcode_of(spec_opcode_num(op)) == Some(op),
{
}

/// One inbound frame, decoded to the fields the state machine reads:
/// the opcode as a tagged variant, and the sequence number if the
/// frame carried one.
#[derive(Debug, Clone, PartialEq, Eq)]
pub enum GatewayEvent {
    /// Opcode 10: the server's greeting, carrying the heartbeat
    /// interval in milliseconds.
    Hello { heartbeat_interval_ms: u64 },
    /// Opcode 11: the last heartbeat was received.
    HeartbeatAck,
    /// Opcode 0: an application event; the session-ready event carries
    /// the server-issued session identifier.
    Dispatch { event_name: Option<String>, session_id: Option<String> },
    /// Opcode 7: the server asks for a clean reconnect.
    Reconnect,
    /// Opcode 9: the session can no longer be resumed.
    InvalidSession,
    /// Any other opcode: no state transition.
    Other { op: u64 },
}

#[derive(Debug, Clone, PartialEq, Eq)]
pub struct Frame {
    pub seq: Option<u64>,
    pub event: GatewayEvent,
}

/// What the connection's driver must do after a frame is handled.
#[derive(Debug, Clone, Copy, PartialEq, Eq, Structural)]
pub enum GatewayAction {
    /// Send an identify frame, then start the heartbeat task (sent on
    /// Hello).
    Identify,
    /// Tear the connection down and reconnect; the preserved session
    /// allows a resume attempt.
    Reconnect,
    /// Tear the connection down and identify from scratch.
    Reidentify,
    /// Nothing to perform.
    NoAction,
}

/// What to do about a stream-level close, by close code.
#[derive(Debug, Clone, Copy, PartialEq, Eq, Structural)]
pub enum ClosePolicy {
    /// Recoverable: reconnect and attempt a resume.
    Resume,
    /// The session is gone but the configuration is fine: reconnect
    /// and identify from scratch.
    Reidentify,
    /// The server rejected the configuration itself (bad token,
    /// unacceptable capability mask, bad protocol version): do not
    /// reconnect.
    Fatal,
}

/// Close-code interpretation. Authentication failures and
/// configuration rejections are fatal; an invalidated or timed-out
/// session and a clean close mean identify from scratch; every other
/// code is treated as recoverable, resume first.
pub open spec fn spec_close_policy(code: u16) -> ClosePolicy {
    if code == 4004 || code == 4010 || code == 4011 || code == 4012 || code == 4013 || code
        == 4014 {
        ClosePolicy::Fatal
    } else if code == 4007 || code == 4009 || code == 1000 || code == 1001 {
        ClosePolicy::Reidentify
    } else {
        ClosePolicy::Resume
    }
}

pub fn close_policy(code: u16) -> (r: ClosePolicy)
    ensures
        r == spec_close_policy(code),
{
    match code {
        4004 | 4010 | 4011 | 4012 | 4013 | 4014 => ClosePolicy::Fatal,
        4007 | 4009 | 1000 | 1001 => ClosePolicy::Reidentify,
        _ => ClosePolicy::Resume,
    }
}

/// The bookkeeping of one logical gateway connection.
#[derive(Debug, Clone, PartialEq, Eq)]
pub struct Session {
    /// Last sequence number seen on this connection; echoed on every
    /// heartbeat. A fresh session has none.
    pub sequence: Option<u64>,
    /// Server-issued identifier, captured from the session-ready
    /// event. A fresh session has none.
    pub session_id: Option<String>,
    /// Heartbeat interval announced by Hello, in milliseconds.
    pub heartbeat_interval_ms: Option<u64>,
    /// Whether the last heartbeat sent was acknowledged. Starts true:
    /// nothing is owed before the first heartbeat.
    pub last_heartbeat_ack: bool,
}

/// Sequence bookkeeping: a frame-carried number replaces the last-seen
/// one only if it is larger, so the number never decreases within a
/// session.
pub open spec fn spec_next_sequence(cur: Option<u64>, seen: Option<u64>) -> Option<u64> {
    match seen {
        Option::None => cur,
        Option::Some(n) => match cur {
            Option::None => Some(n),
            Option::Some(c) => if n > c {
                Some(n)
            } else {
                Some(c)
            },
        },
    }
}

/// The transition of `handle_frame`: the session after the frame, and
/// the action owed to the driver.
pub open spec fn spec_handle_frame(s: Session, f: Frame) -> (Session, GatewayAction) {
    let seq = spec_next_sequence(s.sequence, f.seq);
    match f.event {
        GatewayEvent::Hello { heartbeat_interval_ms } => (
            Session {
                sequence: seq,
                heartbeat_interval_ms: Some(heartbeat_interval_ms),
                ..s
            },
            GatewayAction::Identify,
        ),
        GatewayEvent::HeartbeatAck => (
            Session { sequence: seq, last_heartbeat_ack: true, ..s },
            GatewayAction::NoAction,
        ),
        GatewayEvent::Dispatch { event_name, session_id } => (
            Session {
                sequence: seq,
                session_id: if event_name is Some && event_name->0@ == "READY"@ && session_id
                    is Some {
                    session_id
                } else {
                    s.session_id
                },
                ..s
            },
            GatewayAction::NoAction,
        ),
        GatewayEvent::Reconnect => (
            Session { sequence: seq, ..s },
            GatewayAction::Reconnect,
        ),
        GatewayEvent::InvalidSession => (
            Session { sequence: Option::None, session_id: Option::None, ..s },
            GatewayAction::Reidentify,
        ),
        GatewayEvent::Other { op } => (Session { sequence: seq, ..s }, GatewayAction::NoAction),
    }
}

impl Session {
    /// A fresh connection: no sequence, no session id, no interval,
    /// nothing owed.
    pub fn new() -> (r: Self)
        ensures
            r.sequence is None,
            r.session_id is None,
            r.heartbeat_interval_ms is None,
            r.last_heartbeat_ack == true,
    {
        Session {
            sequence: None,
            session_id: None,
            heartbeat_interval_ms: None,
            last_heartbeat_ack: true,
        }
    }

    /// The opcode handler. Updates the last-seen sequence first, from
    /// any frame that carries one, then applies the opcode's own
    /// transition, and returns the action the driver owes: identify on
    /// Hello, a resumable reconnect on a server-requested reconnect,
    /// identify-from-scratch on an invalidated session.
    pub fn handle_frame(&mut self, f: &Frame) -> (a: GatewayAction)
        ensures
            (*final(self), a) == spec_handle_frame(*old(self), *f),
            final(self).sequence == spec_next_sequence(old(self).sequence, f.seq) || (f.event
                is InvalidSession && final(self).sequence is None),
    {
        match f.seq {
            None => {},
            Some(n) => {
                match self.sequence {
                    None => {
                        self.sequence = Some(n);
                    },
                    Some(c) => {
                        if n > c {
                            self.sequence = Some(n);
                        }
                    },
                }
            },
        }
        match &f.event {
            GatewayEvent::Hello { heartbeat_interval_ms } => {
                self.heartbeat_interval_ms = Some(*heartbeat_interval_ms);
                GatewayAction::Identify
            },
            GatewayEvent::HeartbeatAck => {
                self.last_heartbeat_ack = true;
                GatewayAction::NoAction
            },
            GatewayEvent::Dispatch { event_name, session_id } => {
                let is_ready = match event_name {
                    Some(name) => crate::intents::str_is(name.as_str(), "READY"),
                    None => false,
                };
                if is_ready {
                    match session_id {
                        Some(sid) => {
                            self.session_id = Some(sid.clone());
                        },
                        None => {},
                    }
                }
                proof {
                    assert(self.session_id == spec_handle_frame(*old(self), *f).0.session_id);
                }
                GatewayAction::NoAction
            },
            GatewayEvent::Reconnect => GatewayAction::Reconnect,
            GatewayEvent::InvalidSession => {
                self.sequence = None;
                self.session_id = None;
                GatewayAction::Reidentify
            },
            GatewayEvent::Other { .. } => GatewayAction::NoAction,
        }
    }

    /// Marks a heartbeat as sent and not yet acknowledged; the monitor
    /// checks the flag when the grace window closes.
    pub fn mark_heartbeat_sent(&mut self)
        ensures
            *final(self) == (Session { last_heartbeat_ack: false, ..*old(self) }),
    {
        self.last_heartbeat_ack = false;
    }

    /// Readies the session for a fresh connection after a
    /// server-requested reconnect: the sequence and session id are
    /// kept so a resume can be attempted, while the heartbeat interval
    /// and the ack flag, which belong to the connection, are reset.
    pub fn prepare_reconnect(&mut self)
        ensures
            *final(self) == (Session {
                heartbeat_interval_ms: Option::None,
                last_heartbeat_ack: true,
                ..*old(self)
            }),
    {
        self.heartbeat_interval_ms = None;
        self.last_heartbeat_ack = true;
    }

    /// Applies the close policy for a stream-level close. A resumable
    /// close keeps the sequence and session id so a resume can be
    /// attempted; the other policies discard them. The heartbeat
    /// interval and the ack flag are reset either way: they belong to
    /// the connection, not to the logical session.
    pub fn on_close(&mut self, code: u16) -> (p: ClosePolicy)
        ensures
            p == spec_close_policy(code),
            p is Resume ==> *final(self) == (Session {
                heartbeat_interval_ms: Option::None,
                last_heartbeat_ack: true,
                ..*old(self)
            }),
            !(p is Resume) ==> *final(self) == (Session {
                sequence: Option::None,
                session_id: Option::None,
                heartbeat_interval_ms: Option::None,
                last_heartbeat_ack: true,
            }),
    {
        let p = close_policy(code);
        match p {
            ClosePolicy::Resume => {},
            _ => {
                self.sequence = None;
                self.session_id = None;
            },
        }
        self.heartbeat_interval_ms = None;
        self.last_heartbeat_ack = true;
        p
    }

    /// Whether the preserved state suffices for a resume attempt.
    pub fn can_resume(&self) -> (r: bool)
        ensures
            r == (self.sequence is Some && self.session_id is Some),
    {
        self.sequence.is_some() && self.session_id.is_some()
    }
}

/// The last-seen sequence number never decreases across any frame:
/// whatever arrives, the handler's new sequence is at least the old
/// one (an invalidated session discards it altogether).
pub proof fn law_sequence_monotonic(s: Session, f: Frame)
    requires
        !(f.event is InvalidSession),
        s.sequence is Some,
    ensures
        spec_handle_frame(s, f).0.sequence is Some,
        spec_handle_frame(s, f).0.sequence->0 >= s.sequence->0,
{
}

/// The default heartbeat interval assumed when Hello does not carry
/// one, matching the server's customary announcement.
pub const DEFAULT_HEARTBEAT_INTERVAL_MS: u64 = 41250;

/// The tagged event an opcode and its extracted payload fields decode
/// to. A frame without an opcode counts as opcode 0, and a Hello
/// without an interval gets the customary default: the decoder reads
/// the wire leniently and lets the state machine decide.
pub open spec fn spec_classify_frame(
    op: Option<u64>,
    event_name: Option<String>,
    heartbeat_interval_ms: Option<u64>,
    session_id: Option<String>,
) -> GatewayEvent {
    let code = match op {
        Option::None => 0u64,
        Option::Some(n) => n,
    };
    match spec_opcode_of(code) {
        Option::Some(GatewayOpcode::Hello) => GatewayEvent::Hello {
            heartbeat_interval_ms: match heartbeat_interval_ms {
                Option::None => DEFAULT_HEARTBEAT_INTERVAL_MS,
                Option::Some(n) => n,
            },
        },
        Option::Some(GatewayOpcode::HeartbeatAck) => GatewayEvent::HeartbeatAck,
        Option::Some(GatewayOpcode::Dispatch) => GatewayEvent::Dispatch {
            event_name: event_name,
            session_id: session_id,
        },
        Option::Some(GatewayOpcode::Reconnect) => GatewayEvent::Reconnect,
        Option::Some(GatewayOpcode::InvalidSession) => GatewayEvent::InvalidSession,
        _ => GatewayEvent::Other { op: code },
    }
}

/// Builds the tagged event from the plain fields pulled out of one
/// frame's JSON tree.
pub fn classify_frame(
    op: Option<u64>,
    event_name: Option<String>,
    heartbeat_interval_ms: Option<u64>,
    session_id: Option<String>,
) -> (e: GatewayEvent)
    ensures
        e == spec_classify_frame(op, event_name, heartbeat_interval_ms, session_id),
{
    let code = match op {
        None => 0u64,
        Some(n) => n,
    };
    match GatewayOpcode::from_u64(code) {
        Some(GatewayOpcode::Hello) => GatewayEvent::Hello {
            heartbeat_interval_ms: match heartbeat_interval_ms {
                None => DEFAULT_HEARTBEAT_INTERVAL_MS,
                Some(n) => n,
            },
        },
        Some(GatewayOpcode::HeartbeatAck) => GatewayEvent::HeartbeatAck,
        Some(GatewayOpcode::Dispatch) => GatewayEvent::Dispatch { event_name, session_id },
        Some(GatewayOpcode::Reconnect) => GatewayEvent::Reconnect,
        Some(GatewayOpcode::InvalidSession) => GatewayEvent::InvalidSession,
        _ => GatewayEvent::Other { op: code },
    }
}

/// Pulls the fields the state machine reads out of a frame's JSON
/// tree and classifies it. What comes back is decided by the tree the
/// JSON library produced; everything the state machine then does with
/// it is verified in `Session::handle_frame`, whatever the fields
/// were.
pub fn frame_of_value(v: &serde_json::Value) -> (f: Frame) {
    let op: Option<u64> = match crate::json::json_get(v, "op") {
        Some(x) => crate::json::json_as_u64(x),
        None => None,
    };
    let seq: Option<u64> = match crate::json::json_get(v, "s") {
        Some(x) => crate::json::json_as_u64(x),
        None => None,
    };
    let event_name: Option<String> = match crate::json::json_get(v, "t") {
        Some(x) => crate::json::json_as_string(x),
        None => None,
    };
    let d = crate::json::json_get(v, "d");
    let heartbeat_interval_ms: Option<u64> = match d {
        Some(inner) => match crate::json::json_get(inner, "heartbeat_interval") {
            Some(x) => crate::json::json_as_u64(x),
            None => None,
        },
        None => None,
    };
    let session_id: Option<String> = match d {
        Some(inner) => match crate::json::json_get(inner, "session_id") {
            Some(x) => crate::json::json_as_string(x),
            None => None,
        },
        None => None,
    };
    let event = classify_frame(op, event_name, heartbeat_interval_ms, session_id);
    Frame { seq, event }
}

/// Decodes one frame from its JSON text: a well-formed text yields a
/// frame, and only a text that is not valid JSON fails, with a
/// decoding error carrying the decoder's text.
pub fn parse_frame(s: &str) -> (r: Result<Frame, DiscordError>)
    ensures
        r is Ok <==> crate::json::json_parses(s@),
        r is Err ==> r->Err_0 is Json,
{
    match crate::json::json_parse(s) {
        Ok(v) => Ok(frame_of_value(&v)),
        Err(e) => Err(DiscordError::Json(e)),
    }
}

/// One message as the streaming transport hands it over: a text
/// frame, a binary frame, a close frame (with the peer's code and
/// reason if it sent any), or anything else (ping, pong).
#[derive(Debug, Clone, PartialEq, Eq)]
pub enum InboundMessage {
    Text(String),
    Binary(Vec<u8>),
    Close { frame: Option<(u16, String)> },
    Other,
}

/// Turns one transport message into at most one protocol frame. Text
/// yields a decoded frame exactly when it is well-formed JSON, and a
/// malformed text fails with a decoding error; binary is read as UTF-8
/// text first and then behaves like that text; a close frame
/// terminates the receive with a connection-closed failure carrying
/// the peer's close code and reason, defaulting to 1000 and an empty
/// reason when the peer sent no frame body; anything else yields no
/// frame.
pub fn interpret_message(m: &InboundMessage) -> (r: Result<Option<Frame>, DiscordError>)
    ensures
        m matches InboundMessage::Text(text) ==> ((r is Ok && r->Ok_0 is Some)
            <==> crate::json::json_parses(text@)),
        m matches InboundMessage::Binary(bin) ==> (forall|t: Seq<char>|
            bin@ == vstd::utf8::encode_utf8(t) ==> ((r is Ok && r->Ok_0 is Some)
                <==> crate::json::json_parses(t))),
        m matches InboundMessage::Close { frame: Option::Some(f) } ==> r is Err && r->Err_0 == (
        DiscordError::ConnectionClosed { code: f.0, reason: f.1 }),
        m matches InboundMessage::Close { frame: Option::None } ==> r is Err && (r->Err_0 matches
            DiscordError::ConnectionClosed { code, reason } && code == 1000 && reason@
            == Seq::<char>::empty()),
        m is Other ==> r == Result::<Option<Frame>, DiscordError>::Ok(Option::None),
        (m is Text || m is Binary) && r is Err ==> r->Err_0 is Json,
        (m is Text || m is Binary) && r is Ok ==> r->Ok_0 is Some,
{
    match m {
        InboundMessage::Text(text) => match parse_frame(text.as_str()) {
            Ok(f) => Ok(Some(f)),
            Err(e) => Err(e),
        },
        InboundMessage::Binary(bin) => {
            let text = crate::json::utf8_lossy(bin.as_slice());
            match parse_frame(text.as_str()) {
                Ok(f) => Ok(Some(f)),
                Err(e) => Err(e),
            }
        },
        InboundMessage::Close { frame } => match frame {
            Some(f) => Err(DiscordError::ConnectionClosed { code: f.0, reason: f.1.clone() }),
            None => Err(DiscordError::ConnectionClosed { code: 1000, reason: String::new() }),
        },
        InboundMessage::Other => Ok(None),
    }
}

} // verus!
