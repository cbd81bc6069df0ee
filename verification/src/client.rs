//! The connection orchestrator.
//!
//! A `Client` owns the request layer's state, the gateway session, and
//! the entity cache for the lifetime of a run. The embedding program
//! drives it: it resolves the gateway endpoint through the request
//! plans, opens the stream, hands every decoded frame to `on_frame`,
//! and performs the action returned — sending the identify bytes,
//! starting the heartbeat task exactly once per connection when Hello
//! has been observed, reconnecting, or forwarding a dispatched event
//! onward.

use vstd::prelude::*;
use vstd::string::StringSliceAdditionalSpecFns;
use vstd::utf8::encode_utf8;
use crate::errors::DiscordError;
use crate::gateway::{Frame, GatewayEvent, Session, spec_handle_frame};
use crate::http::HTTPClient;
use crate::intents::Intents;
use crate::state::State;
use crate::wire;

verus! {

/// What the driver must do after one frame.
#[derive(Debug, Clone, PartialEq, Eq)]
pub enum ClientAction {
    /// Send the identify bytes; if `start_heartbeat` is set, this
    /// Hello is the connection's first, and the heartbeat task must be
    /// started now.
    Identify { start_heartbeat: bool },
    /// Tear the connection down and reconnect; a resume may be
    /// attempted.
    Reconnect,
    /// Tear the connection down and identify from scratch.
    Reidentify,
    /// Forward the dispatched event to the application.
    Dispatch { event_name: Option<String> },
    /// Nothing to perform.
    NoAction,
}

pub struct Client {
    pub http: HTTPClient,
    pub session: Session,
    pub state: State,
    pub token: String,
    pub intents: Intents,
    /// Whether this connection's heartbeat task is already running.
    pub heartbeat_started: bool,
}

impl Client {
    /// A fresh client with the given capability mask, or the
    /// documented default when none is given.
    pub fn new(intents: Option<Intents>) -> (r: Self)
        ensures
            r.intents == (match intents {
                Option::Some(i) => i,
                Option::None => (Intents {
                    value: crate::intents::ALL_MASK & !crate::intents::PRESENCES
                        & !crate::intents::MEMBERS & !crate::intents::MESSAGE_CONTENT,
                }),
            }),
            r.token@ == Seq::<char>::empty(),
            r.http.token is None,
            r.state.guilds@ == Map::<u64, serde_json::Value>::empty(),
            r.state.users@ == Map::<u64, serde_json::Value>::empty(),
            r.state.channels@ == Map::<u64, serde_json::Value>::empty(),
            r.state.user_id is None,
            r.session.sequence is None,
            r.session.session_id is None,
            r.session.heartbeat_interval_ms is None,
            r.session.last_heartbeat_ack == true,
            r.heartbeat_started == false,
    {
        let intents = match intents {
            Some(i) => i,
            None => Intents::default(),
        };
        Client {
            http: HTTPClient::new(),
            session: Session::new(),
            state: State::new(),
            token: String::new(),
            intents,
            heartbeat_started: false,
        }
    }

    /// Begins a run: remembers the token and sets it on the request
    /// layer, so every request from here on is authorized.
    pub fn begin_run(&mut self, token: &str)
        ensures
            final(self).token@ == token@,
            final(self).http.token matches Some(t) && t@ == token@,
            final(self).http.rate_limits == old(self).http.rate_limits,
            final(self).session == old(self).session,
            final(self).intents == old(self).intents,
            final(self).heartbeat_started == old(self).heartbeat_started,
    {
        self.token = token.to_owned();
        self.http.set_token(token.to_owned());
    }

    /// Hands one decoded frame to the session's opcode handler and
    /// translates the result for the driver. The heartbeat task is
    /// asked for exactly once per connection: on the first Hello.
    pub fn on_frame(&mut self, f: &Frame) -> (a: ClientAction)
        ensures
            final(self).session == spec_handle_frame(old(self).session, *f).0,
            final(self).http == old(self).http,
            final(self).token == old(self).token,
            final(self).intents == old(self).intents,
            f.event is Hello ==> a == (ClientAction::Identify {
                start_heartbeat: !old(self).heartbeat_started,
            }) && final(self).heartbeat_started == true,
            !(f.event is Hello) ==> final(self).heartbeat_started == old(self).heartbeat_started,
            f.event matches GatewayEvent::Dispatch { event_name, .. } ==> a == (
            ClientAction::Dispatch { event_name }),
            f.event is Reconnect ==> a is Reconnect,
            f.event is InvalidSession ==> a is Reidentify,
            f.event is HeartbeatAck || f.event is Other ==> a is NoAction,
    {
        let event_name_for_dispatch: Option<String> = match &f.event {
            GatewayEvent::Dispatch { event_name, .. } => match event_name {
                Some(n) => Some(n.clone()),
                None => None,
            },
            _ => None,
        };
        let action = self.session.handle_frame(f);
        match action {
            crate::gateway::GatewayAction::Identify => {
                let start_heartbeat = !self.heartbeat_started;
                self.heartbeat_started = true;
                ClientAction::Identify { start_heartbeat }
            },
            crate::gateway::GatewayAction::Reconnect => ClientAction::Reconnect,
            crate::gateway::GatewayAction::Reidentify => ClientAction::Reidentify,
            crate::gateway::GatewayAction::NoAction => {
                match &f.event {
                    GatewayEvent::Dispatch { .. } => ClientAction::Dispatch {
                        event_name: event_name_for_dispatch,
                    },
                    _ => ClientAction::NoAction,
                }
            },
        }
    }

    /// The identify bytes for this client's token and capability mask,
    /// with the given client-identification properties.
    pub fn identify_bytes(&self, os: &str, browser: &str, device: &str) -> (r: Vec<u8>)
        ensures
            r@ == wire::spec_identify_frame(
                encode_utf8(self.token@),
                self.intents.value,
                os.spec_bytes(),
                browser.spec_bytes(),
                device.spec_bytes(),
            ),
    {
        wire::identify_frame(self.token.as_str(), self.intents, os, browser, device)
    }

    /// The heartbeat bytes echoing the session's last-seen sequence.
    pub fn heartbeat_bytes(&self) -> (r: Vec<u8>)
        ensures
            r@ == wire::spec_heartbeat_frame(self.session.sequence),
    {
        wire::heartbeat_frame(self.session.sequence)
    }

    /// The resume bytes for the preserved session, when one is
    /// preserved.
    pub fn resume_bytes(&self) -> (r: Result<Vec<u8>, DiscordError>)
        ensures
            r is Ok <==> self.session.sequence is Some && self.session.session_id is Some,
            r is Ok ==> r->Ok_0@ == wire::spec_resume_frame(
                encode_utf8(self.token@),
                encode_utf8(self.session.session_id->0@),
                self.session.sequence->0,
            ),
            r is Err ==> r->Err_0 is Gateway,
    {
        match (&self.session.sequence, &self.session.session_id) {
            (Some(seq), Some(sid)) => Ok(
                wire::resume_frame(self.token.as_str(), sid.as_str(), *seq),
            ),
            _ => Err(DiscordError::Gateway("no session to resume".to_owned())),
        }
    }

    /// Marks the heartbeat task as stopped: the next Hello starts a
    /// fresh one (called when the connection is torn down).
    pub fn heartbeat_stopped(&mut self)
        ensures
            final(self).heartbeat_started == false,
            final(self).session == old(self).session,
            final(self).http == old(self).http,
            final(self).token == old(self).token,
            final(self).intents == old(self).intents,
    {
        self.heartbeat_started = false;
    }
}

} // verus!
