//! WebSocket client for the Deepgram Agent API: the connection URL, the handshake, and the
//! decisions of the connection's worker.
//!
//! See the [Deepgram Agent API Reference][api] for more info.
//!
//! [api]: https://developers.deepgram.com/docs/voicebot

use vstd::prelude::*;

use super::types::{AgentClientMessage, AgentSettings, SettingsPayload};
use crate::client::{Deepgram, DeepgramError, Result};
use crate::handshake::{handshake_for, handshake_matches, HandshakeRequest};
use crate::outside::url_host;
use crate::websocket_url::{has_websocket_scheme, joins_to_web_url, keeps_security, websocket_url, websocket_url_for};

verus! {

/// The path of the agent endpoint, relative to the base URL.
pub const AGENT_URL_PATH: &'static str = "v1/agent/converse";

/// Agent requests of a client.
#[derive(Debug, Clone, Copy)]
pub struct Agent<'a>(&'a Deepgram);

impl Deepgram {
    /// Agent requests of this client.
    pub fn agent(&self) -> (agent: Agent<'_>)
        ensures
            agent.client() == self,
    {
        Agent(self)
    }
}

impl<'a> Agent<'a> {
    /// The client that makes these requests.
    pub closed spec fn client(&self) -> &'a Deepgram {
        self.0
    }

    /// Begin configuring an Agent WebSocket connection.
    pub fn converse(&self, settings: AgentSettings) -> (builder: AgentBuilder<'a>)
        ensures
            builder.client() == self.client(),
            builder.settings() == settings,
    {
        AgentBuilder { deepgram: self.0, settings }
    }
}

/// Configuration of an Agent WebSocket connection.
#[derive(Debug)]
pub struct AgentBuilder<'a> {
    deepgram: &'a Deepgram,
    settings: AgentSettings,
}

impl<'a> AgentBuilder<'a> {
    /// The client that connects.
    pub closed spec fn client(&self) -> &'a Deepgram {
        self.deepgram
    }

    /// The settings sent when the session starts.
    pub closed spec fn settings(&self) -> AgentSettings {
        self.settings
    }

    /// The WebSocket URL of the agent endpoint: its path joined to the client's base URL, with
    /// the scheme switched to `ws` (from `http` or `ws`) or `wss` (from `https` or `wss`).
    /// Fails with [`DeepgramError::InvalidUrl`] where that URL cannot be built.
    pub fn build_url(&self) -> (res: Result<String>)
        ensures
            res is Ok <==> websocket_url(self.client().base_url(), AGENT_URL_PATH@) is Some,
            res is Ok ==> res->Ok_0@ == websocket_url(self.client().base_url(), AGENT_URL_PATH@)->0,
            res is Ok <==> joins_to_web_url(self.client().base_url(), AGENT_URL_PATH@),
            res is Ok ==> has_websocket_scheme(res->Ok_0@),
            res is Ok ==> keeps_security(self.client().base_url(), AGENT_URL_PATH@, res->Ok_0@),
            res is Err ==> res->Err_0 is InvalidUrl,
    {
        match websocket_url_for(self.deepgram.base_url_text(), AGENT_URL_PATH) {
            Some(url) => Ok(url),
            None => Err(DeepgramError::InvalidUrl),
        }
    }

    /// The WebSocket upgrade request for this connection: its URL, and the headers with a
    /// fresh random `sec-websocket-key`. Fails with [`DeepgramError::InvalidUrl`] where the
    /// URL cannot be built or has no host.
    pub fn handshake(&self) -> (res: Result<HandshakeRequest>)
        ensures
            res is Ok <==> ({
                let url = websocket_url(self.client().base_url(), AGENT_URL_PATH@);
                url is Some && url_host(url->0) is Some
            }),
            res is Ok <==> joins_to_web_url(self.client().base_url(), AGENT_URL_PATH@),
            res is Ok ==> handshake_matches(
                res->Ok_0,
                websocket_url(self.client().base_url(), AGENT_URL_PATH@)->0,
                self.client().auth_value(),
            ),
            res is Err ==> res->Err_0 is InvalidUrl,
    {
        let url = self.build_url()?;
        handshake_for(url, self.deepgram)
    }

    /// The first message of the session: the settings.
    pub fn into_settings_message(self) -> (msg: AgentClientMessage)
        ensures
            msg == AgentClientMessage::Settings(SettingsPayload { settings: self.settings() }),
    {
        AgentClientMessage::Settings(SettingsPayload { settings: self.settings })
    }
}

// ---------------------------------------------------------------------------
// Worker
// ---------------------------------------------------------------------------

/// The opcode of a raw frame, as far as the worker tells them apart.
#[derive(Debug, Clone, Copy, PartialEq, Eq)]
pub enum FrameKind {
    /// The first frame of a text message.
    Text,
    /// A continuation of the message that a previous frame started.
    Continuation,
    /// Any other opcode.
    Other,
}

/// The text message under assembly after a raw frame: a text frame starts or extends it, a
/// continuation frame extends one that was started (and is dropped otherwise), other frames
/// leave it as it is.
pub open spec fn extend_partial(partial: Seq<u8>, kind: FrameKind, payload: Seq<u8>) -> Seq<u8> {
    match kind {
        FrameKind::Text => partial + payload,
        FrameKind::Continuation => if partial.len() > 0 { partial + payload } else { partial },
        FrameKind::Other => partial,
    }
}

/// A raw frame as the worker reads it: its kind, whether it is final, and its payload.
pub type FrameView = (FrameKind, bool, Seq<u8>);

/// One raw frame read with `partial` under assembly: the message under assembly afterwards,
/// and the message delivered, if the frame is final (the message assembled so far, which is
/// then no longer under assembly).
pub open spec fn frame_step(partial: Seq<u8>, frame: FrameView) -> (Seq<u8>, Option<Seq<u8>>) {
    let assembled = extend_partial(partial, frame.0, frame.2);
    if frame.1 {
        (Seq::empty(), Some(assembled))
    } else {
        (assembled, None)
    }
}

/// Raw frames read in order with `partial` under assembly: the message under assembly
/// afterwards, and the messages delivered, in order.
pub open spec fn frames_step(partial: Seq<u8>, frames: Seq<FrameView>) -> (Seq<u8>, Seq<Seq<u8>>)
    decreases frames.len(),
{
    if frames.len() == 0 {
        (partial, Seq::empty())
    } else {
        let first = frame_step(partial, frames[0]);
        let rest = frames_step(first.0, frames.drop_first());
        (rest.0, match first.1 {
            Some(message) => seq![message] + rest.1,
            None => rest.1,
        })
    }
}

/// The concatenation of byte strings.
pub open spec fn concat_all(parts: Seq<Seq<u8>>) -> Seq<u8>
    decreases parts.len(),
{
    if parts.len() == 0 {
        Seq::empty()
    } else {
        parts[0] + concat_all(parts.drop_first())
    }
}

/// Continuation frames with the given payloads, the last one final.
pub open spec fn continuation_frames(payloads: Seq<Seq<u8>>) -> Seq<FrameView> {
    Seq::new(payloads.len(), |i: int| (FrameKind::Continuation, i == payloads.len() - 1, payloads[i]))
}

/// A text message sent in fragments (RFC 6455, section 5.4), as the worker reads it
/// with nothing under assembly: a text frame with the first payload and continuation frames
/// with the rest, or a single final text frame, is delivered once, as the concatenation of
/// the payloads, and leaves nothing under assembly. (A message whose first fragment is empty
/// while more follow is not covered: its continuations are dropped.)
pub proof fn fragmented_text_is_reassembled(first: Seq<u8>, rest: Seq<Seq<u8>>)
    requires
        rest.len() == 0 || first.len() > 0,
    ensures
        frames_step(Seq::empty(), seq![(FrameKind::Text, rest.len() == 0, first)] + continuation_frames(rest))
            == (Seq::<u8>::empty(), seq![first + concat_all(rest)]),
{
    let frames = seq![(FrameKind::Text, rest.len() == 0, first)] + continuation_frames(rest);
    assert(frames.drop_first() =~= continuation_frames(rest));
    assert(frames[0] == (FrameKind::Text, rest.len() == 0, first));
    assert(Seq::<u8>::empty() + first =~= first);
    let head = frame_step(Seq::empty(), frames[0]);
    if rest.len() == 0 {
        assert(head == (Seq::<u8>::empty(), Some(first)));
        assert(continuation_frames(rest) =~= Seq::<FrameView>::empty());
        let tail = frames_step(head.0, frames.drop_first());
        assert(tail == (Seq::<u8>::empty(), Seq::<Seq<u8>>::empty()));
        assert(concat_all(rest) =~= Seq::<u8>::empty());
        assert(first + concat_all(rest) =~= first);
        assert(seq![first] + tail.1 =~= seq![first + concat_all(rest)]);
    } else {
        assert(head == (first, Option::<Seq<u8>>::None));
        lemma_continuations_complete(first, rest);
    }
}

/// Continuation frames read with a non-empty message under assembly complete it: it is
/// delivered once, extended by all their payloads.
proof fn lemma_continuations_complete(partial: Seq<u8>, rest: Seq<Seq<u8>>)
    requires
        partial.len() > 0,
        rest.len() > 0,
    ensures
        frames_step(partial, continuation_frames(rest)) == (Seq::<u8>::empty(), seq![partial + concat_all(rest)]),
    decreases rest.len(),
{
    let frames = continuation_frames(rest);
    assert(frames.len() == rest.len());
    let head = frame_step(partial, frames[0]);
    assert(concat_all(rest) == rest[0] + concat_all(rest.drop_first()));
    if rest.len() == 1 {
        assert(frames[0] == (FrameKind::Continuation, true, rest[0]));
        assert(head == (Seq::<u8>::empty(), Some(partial + rest[0])));
        assert(frames.drop_first() =~= Seq::<FrameView>::empty());
        let tail = frames_step(head.0, frames.drop_first());
        assert(tail == (Seq::<u8>::empty(), Seq::<Seq<u8>>::empty()));
        assert(rest.drop_first().len() == 0);
        assert(concat_all(rest.drop_first()) =~= Seq::<u8>::empty());
        assert(partial + rest[0] =~= partial + concat_all(rest));
        assert(seq![partial + rest[0]] + tail.1 =~= seq![partial + concat_all(rest)]);
    } else {
        assert(frames[0] == (FrameKind::Continuation, false, rest[0]));
        assert(head == (partial + rest[0], Option::<Seq<u8>>::None));
        assert(frames.drop_first() =~= continuation_frames(rest.drop_first()));
        lemma_continuations_complete(partial + rest[0], rest.drop_first());
        assert(partial + rest[0] + concat_all(rest.drop_first()) =~= partial + concat_all(rest));
    }
}

/// What the connection's worker learns: from the socket, from the handle, or about the outcome
/// of what it did.
#[derive(Debug)]
pub enum AgentWorkerEvent {
    /// Sending the settings message, the first thing the worker does, failed.
    SettingsSendFailed(tungstenite::Error),
    /// A text message arrived.
    TextFrame(String),
    /// A binary message arrived: audio.
    AudioFrame(bytes::Bytes),
    /// A ping arrived, with its payload.
    Ping(bytes::Bytes),
    /// A pong arrived.
    PongFrame,
    /// A close frame without a code arrived.
    CloseFrame,
    /// A close frame with a code and reason arrived.
    CloseFrameWith { code: u16, reason: String },
    /// A raw frame arrived.
    RawFrame { kind: FrameKind, is_final: bool, payload: Vec<u8> },
    /// Reading from the socket failed.
    SocketError(tungstenite::Error),
    /// The socket has nothing more to read.
    SocketEnded,
    /// The handle asks for audio to be sent.
    AudioCommand(Vec<u8>),
    /// The handle asks for a JSON message to be sent.
    MessageCommand(String),
    /// The handle asks for the connection to be closed, or is gone.
    CloseCommand,
    /// Sending on the socket failed.
    SendFailed(tungstenite::Error),
    /// An event could not be handed to the handle: nobody listens any more.
    DeliveryFailed,
}

/// What the worker does about an event.
#[derive(Debug)]
pub enum AgentWorkerEffect {
    /// Read a text message as a server event and hand the result to the handle; if nobody
    /// listens, that is reported back as [`AgentWorkerEvent::DeliveryFailed`].
    DeliverText(String),
    /// Read the bytes of an assembled message as a server event and hand the result to the
    /// handle, as [`AgentWorkerEffect::DeliverText`] does.
    DeliverJson(Vec<u8>),
    /// Hand audio to the handle, as [`AgentWorkerEffect::DeliverText`] does.
    DeliverAudio(bytes::Bytes),
    /// Hand an error to the handle, as [`AgentWorkerEffect::DeliverText`] does.
    DeliverError(DeepgramError),
    /// Hand an error to the handle, whether or not anybody listens.
    ReportError(DeepgramError),
    /// Answer with a pong that carries the ping's payload; its outcome does not matter.
    Pong(bytes::Bytes),
    /// Send audio as a binary frame; a failure is reported back as
    /// [`AgentWorkerEvent::SendFailed`].
    SendBinary(Vec<u8>),
    /// Send a JSON message as a text frame; a failure is reported back as
    /// [`AgentWorkerEvent::SendFailed`].
    SendText(String),
    /// Send a close frame; its outcome does not matter.
    SendClose,
    /// Send the session settings as the first text frame; a failure is reported back as
    /// [`AgentWorkerEvent::SettingsSendFailed`].
    SendSettings(String),
    /// Nothing.
    Nothing,
}

/// How the worker goes on after the effect.
#[derive(Debug)]
pub enum AgentWorkerControl {
    /// Wait for the next event.
    Continue,
    /// Leave the loop and clean up: send a close frame if the connection is still open
    /// ([`AgentWorker::closes_on_exit`]), close the event channel, drain the commands.
    Break,
    /// End the worker with this result, without cleaning up.
    Return(Result<()>),
}

/// The worker's decision: an effect, then how it goes on.
#[derive(Debug)]
pub struct AgentWorkerAction {
    pub effect: AgentWorkerEffect,
    pub control: AgentWorkerControl,
}

/// The state of the connection's worker: the text message under assembly from raw frames, and
/// whether the client has not yet closed the connection.
#[derive(Debug)]
pub struct AgentWorker {
    partial_frame: Vec<u8>,
    is_open: bool,
}

/// What an [`AgentWorker`] holds.
pub struct AgentWorkerView {
    pub partial_frame: Seq<u8>,
    pub is_open: bool,
}

impl View for AgentWorker {
    type V = AgentWorkerView;

    closed spec fn view(&self) -> AgentWorkerView {
        AgentWorkerView { partial_frame: self.partial_frame@, is_open: self.is_open }
    }
}

/// The worker's state after an event: raw frames assemble text messages, and a close command
/// closes an open connection; other events leave the state as it is.
pub open spec fn agent_worker_next(state: AgentWorkerView, event: AgentWorkerEvent) -> AgentWorkerView {
    match event {
        AgentWorkerEvent::RawFrame { kind, is_final, payload } =>
            AgentWorkerView { partial_frame: frame_step(state.partial_frame, (kind, is_final, payload@)).0, ..state },
        AgentWorkerEvent::CloseCommand => AgentWorkerView { is_open: false, ..state },
        _ => state,
    }
}

/// The worker's decision about an event in a state:
/// - text and audio messages are delivered; a final raw frame delivers the message assembled
///   so far;
/// - pings are answered; errors of the socket or of a send are delivered;
/// - while the connection is open, commands are sent, and a close command sends a close
///   frame; once it is closed, commands do nothing;
/// - the worker ends when the server closes (with an error where the close frame carries a
///   code), when the socket ends, or when the settings cannot be sent (after reporting it);
///   it breaks off when nobody listens any more.
pub open spec fn agent_worker_decides(state: AgentWorkerView, event: AgentWorkerEvent, action: AgentWorkerAction) -> bool {
    match event {
        AgentWorkerEvent::SettingsSendFailed(err) =>
            action.effect == AgentWorkerEffect::ReportError(DeepgramError::WsError(err))
            && action.control == AgentWorkerControl::Return(Ok(())),
        AgentWorkerEvent::TextFrame(text) =>
            action.effect == AgentWorkerEffect::DeliverText(text) && action.control is Continue,
        AgentWorkerEvent::AudioFrame(data) =>
            action.effect == AgentWorkerEffect::DeliverAudio(data) && action.control is Continue,
        AgentWorkerEvent::Ping(payload) =>
            action.effect == AgentWorkerEffect::Pong(payload) && action.control is Continue,
        AgentWorkerEvent::PongFrame => action.effect is Nothing && action.control is Continue,
        AgentWorkerEvent::CloseFrame =>
            action.effect is Nothing && action.control == AgentWorkerControl::Return(Ok(())),
        AgentWorkerEvent::CloseFrameWith { code, reason } =>
            action.effect is Nothing
            && action.control == AgentWorkerControl::Return(Err(DeepgramError::WebsocketClose { code, reason })),
        AgentWorkerEvent::RawFrame { kind, is_final, payload } =>
            action.control is Continue && match frame_step(state.partial_frame, (kind, is_final, payload@)).1 {
                Some(message) => action.effect matches AgentWorkerEffect::DeliverJson(data) && data@ == message,
                None => action.effect is Nothing,
            },
        AgentWorkerEvent::SocketError(err) =>
            action.effect == AgentWorkerEffect::DeliverError(DeepgramError::WsError(err)) && action.control is Continue,
        AgentWorkerEvent::SocketEnded =>
            action.effect is Nothing && action.control == AgentWorkerControl::Return(Ok(())),
        AgentWorkerEvent::AudioCommand(data) =>
            action.control is Continue && if state.is_open {
                action.effect matches AgentWorkerEffect::SendBinary(sent) && sent@ == data@
            } else {
                action.effect is Nothing
            },
        AgentWorkerEvent::MessageCommand(json) =>
            action.control is Continue && if state.is_open {
                action.effect == AgentWorkerEffect::SendText(json)
            } else {
                action.effect is Nothing
            },
        AgentWorkerEvent::CloseCommand =>
            action.control is Continue && if state.is_open {
                action.effect is SendClose
            } else {
                action.effect is Nothing
            },
        AgentWorkerEvent::SendFailed(err) =>
            action.effect == AgentWorkerEffect::DeliverError(DeepgramError::WsError(err)) && action.control is Continue,
        AgentWorkerEvent::DeliveryFailed => action.effect is Nothing && action.control is Break,
    }
}

/// The worker ends (without cleaning up) exactly when the server closes, the socket ends, or
/// the settings cannot be sent; it leaves its loop (and cleans up) exactly when nobody listens
/// any more; every other event lets it go on.
pub proof fn agent_worker_ends_only_at_an_end(state: AgentWorkerView, event: AgentWorkerEvent, action: AgentWorkerAction)
    requires
        agent_worker_decides(state, event, action),
    ensures
        action.control is Return <==> (event is CloseFrame || event is CloseFrameWith || event is SocketEnded
            || event is SettingsSendFailed),
        action.control is Break <==> event is DeliveryFailed,
{
}

/// A fresh worker's state: open, with nothing under assembly.
pub open spec fn fresh_worker() -> AgentWorkerView {
    AgentWorkerView { partial_frame: Seq::empty(), is_open: true }
}

/// Where the settings message, the worker's first frame, cannot be sent, the worker hands on
/// that error alone and ends with `Ok`, sending nothing more.
pub proof fn failed_settings_end_the_worker(err: tungstenite::Error, action: AgentWorkerAction)
    requires
        agent_worker_decides(fresh_worker(), AgentWorkerEvent::SettingsSendFailed(err), action),
    ensures
        action.effect == AgentWorkerEffect::ReportError(DeepgramError::WsError(err)),
        action.control == AgentWorkerControl::Return(Ok(())),
{
}

/// Once the client has closed the connection, commands do nothing and leave the worker as
/// it is: no audio, message or second close frame goes out.
pub proof fn closed_connection_ignores_commands(state: AgentWorkerView, event: AgentWorkerEvent, action: AgentWorkerAction)
    requires
        !state.is_open,
        event is AudioCommand || event is MessageCommand || event is CloseCommand,
        agent_worker_decides(state, event, action),
    ensures
        action.effect is Nothing,
        action.control is Continue,
        agent_worker_next(state, event) == state,
{
}

/// A close frame goes out on an event exactly when the client closes an open connection, and
/// the connection is closed afterwards.
pub proof fn close_frame_only_when_closing(state: AgentWorkerView, event: AgentWorkerEvent, action: AgentWorkerAction)
    requires
        agent_worker_decides(state, event, action),
    ensures
        action.effect is SendClose <==> (state.is_open && event is CloseCommand),
        event is CloseCommand ==> !agent_worker_next(state, event).is_open,
{
}

/// The close frames that the worker sends over a run of events from a state, counting the one
/// it sends on leaving its loop while the connection is still open.
pub open spec fn close_frames_sent(state: AgentWorkerView, events: Seq<AgentWorkerEvent>) -> nat
    decreases events.len(),
{
    if events.len() == 0 {
        if state.is_open { 1 } else { 0 }
    } else {
        (if state.is_open && events[0] is CloseCommand { 1nat } else { 0nat })
            + close_frames_sent(agent_worker_next(state, events[0]), events.drop_first())
    }
}

/// Over any run, the worker sends at most one close frame, and none once the connection is
/// closed.
pub proof fn at_most_one_close_frame(state: AgentWorkerView, events: Seq<AgentWorkerEvent>)
    ensures
        close_frames_sent(state, events) <= 1,
        !state.is_open ==> close_frames_sent(state, events) == 0,
    decreases events.len(),
{
    if events.len() > 0 {
        let next = agent_worker_next(state, events[0]);
        at_most_one_close_frame(next, events.drop_first());
        if state.is_open && !(events[0] is CloseCommand) {
            assert(next.is_open);
        }
        if events[0] is CloseCommand {
            assert(!next.is_open);
        }
        if !state.is_open {
            assert(!next.is_open);
        }
    }
}

impl AgentWorker {
    /// A worker for a fresh connection, open and with no message under assembly, and its
    /// first action: before anything else, the settings message goes out as a text frame.
    /// Where that fails ([`AgentWorkerEvent::SettingsSendFailed`]), the worker reports the error
    /// and ends with `Ok`, so no other frame goes out.
    pub fn start(settings_json: String) -> (res: (AgentWorker, AgentWorkerAction))
        ensures
            res.0@ == fresh_worker(),
            res.1.effect == AgentWorkerEffect::SendSettings(settings_json),
            res.1.control is Continue,
    {
        (
            AgentWorker { partial_frame: Vec::new(), is_open: true },
            AgentWorkerAction {
                effect: AgentWorkerEffect::SendSettings(settings_json),
                control: AgentWorkerControl::Continue,
            },
        )
    }

    /// Whether the worker sends a close frame when it leaves its loop: only if the client has
    /// not closed the connection already.
    pub fn closes_on_exit(&self) -> (close: bool)
        ensures
            close == self@.is_open,
    {
        self.is_open
    }

    /// Decides what the worker does about an event, and updates its state.
    pub fn step(&mut self, event: AgentWorkerEvent) -> (action: AgentWorkerAction)
        ensures
            final(self)@ == agent_worker_next(old(self)@, event),
            agent_worker_decides(old(self)@, event, action),
    {
        match event {
            AgentWorkerEvent::SettingsSendFailed(err) => AgentWorkerAction {
                effect: AgentWorkerEffect::ReportError(DeepgramError::WsError(err)),
                control: AgentWorkerControl::Return(Ok(())),
            },
            AgentWorkerEvent::TextFrame(text) => AgentWorkerAction {
                effect: AgentWorkerEffect::DeliverText(text),
                control: AgentWorkerControl::Continue,
            },
            AgentWorkerEvent::AudioFrame(data) => AgentWorkerAction {
                effect: AgentWorkerEffect::DeliverAudio(data),
                control: AgentWorkerControl::Continue,
            },
            AgentWorkerEvent::Ping(payload) => AgentWorkerAction {
                effect: AgentWorkerEffect::Pong(payload),
                control: AgentWorkerControl::Continue,
            },
            AgentWorkerEvent::PongFrame => AgentWorkerAction {
                effect: AgentWorkerEffect::Nothing,
                control: AgentWorkerControl::Continue,
            },
            AgentWorkerEvent::CloseFrame => AgentWorkerAction {
                effect: AgentWorkerEffect::Nothing,
                control: AgentWorkerControl::Return(Ok(())),
            },
            AgentWorkerEvent::CloseFrameWith { code, reason } => AgentWorkerAction {
                effect: AgentWorkerEffect::Nothing,
                control: AgentWorkerControl::Return(Err(DeepgramError::WebsocketClose { code, reason })),
            },
            AgentWorkerEvent::RawFrame { kind, is_final, payload } => {
                let mut payload = payload;
                match kind {
                    FrameKind::Text => {
                        self.partial_frame.append(&mut payload);
                    },
                    FrameKind::Continuation => {
                        if self.partial_frame.len() > 0 {
                            self.partial_frame.append(&mut payload);
                        }
                    },
                    FrameKind::Other => {},
                }
                if is_final {
                    let mut data: Vec<u8> = Vec::new();
                    std::mem::swap(&mut data, &mut self.partial_frame);
                    AgentWorkerAction {
                        effect: AgentWorkerEffect::DeliverJson(data),
                        control: AgentWorkerControl::Continue,
                    }
                } else {
                    AgentWorkerAction {
                        effect: AgentWorkerEffect::Nothing,
                        control: AgentWorkerControl::Continue,
                    }
                }
            },
            AgentWorkerEvent::SocketError(err) => AgentWorkerAction {
                effect: AgentWorkerEffect::DeliverError(DeepgramError::WsError(err)),
                control: AgentWorkerControl::Continue,
            },
            AgentWorkerEvent::SocketEnded => AgentWorkerAction {
                effect: AgentWorkerEffect::Nothing,
                control: AgentWorkerControl::Return(Ok(())),
            },
            AgentWorkerEvent::AudioCommand(data) => AgentWorkerAction {
                effect: if self.is_open { AgentWorkerEffect::SendBinary(data) } else { AgentWorkerEffect::Nothing },
                control: AgentWorkerControl::Continue,
            },
            AgentWorkerEvent::MessageCommand(json) => AgentWorkerAction {
                effect: if self.is_open { AgentWorkerEffect::SendText(json) } else { AgentWorkerEffect::Nothing },
                control: AgentWorkerControl::Continue,
            },
            AgentWorkerEvent::CloseCommand => {
                let was_open = self.is_open;
                self.is_open = false;
                AgentWorkerAction {
                    effect: if was_open { AgentWorkerEffect::SendClose } else { AgentWorkerEffect::Nothing },
                    control: AgentWorkerControl::Continue,
                }
            },
            AgentWorkerEvent::SendFailed(err) => AgentWorkerAction {
                effect: AgentWorkerEffect::DeliverError(DeepgramError::WsError(err)),
                control: AgentWorkerControl::Continue,
            },
            AgentWorkerEvent::DeliveryFailed => AgentWorkerAction {
                effect: AgentWorkerEffect::Nothing,
                control: AgentWorkerControl::Break,
            },
        }
    }
}

// ---------------------------------------------------------------------------
// Feeding an audio stream into a connection
// ---------------------------------------------------------------------------

/// What the task that feeds an audio stream into a connection learns.
#[derive(Debug)]
pub enum AgentPumpEvent {
    /// The connection produced an event (or error).
    EventReady,
    /// The connection produces no more events.
    EventsEnded,
    /// The audio stream produced a chunk.
    AudioChunk(Vec<u8>),
    /// The audio stream produced an error; its message.
    AudioFailed(String),
    /// The audio stream has ended.
    AudioEnded,
    /// Sending a chunk on the connection failed.
    SendFailed(DeepgramError),
    /// Closing the connection failed.
    CloseFailed(DeepgramError),
    /// An event could not be handed on: nobody listens any more.
    DeliveryFailed,
}

/// What the feeding task does.
#[derive(Debug)]
pub enum AgentPumpEffect {
    /// Hand the connection's event on; if nobody listens, that is reported back as
    /// [`AgentPumpEvent::DeliveryFailed`].
    ForwardEvent,
    /// Close the channel that hands events on.
    CloseOutput,
    /// Send audio on the connection; a failure is reported back as [`AgentPumpEvent::SendFailed`].
    SendAudio(Vec<u8>),
    /// Hand an error on; if nobody listens, that is reported back as
    /// [`AgentPumpEvent::DeliveryFailed`].
    Deliver(DeepgramError),
    /// Hand an error on, whether or not anybody listens.
    Report(DeepgramError),
    /// Close the connection; a failure is reported back as [`AgentPumpEvent::CloseFailed`]
    /// before the task stops.
    CloseHandle,
    /// Nothing.
    Nothing,
}

/// The feeding task's decision: an effect, and whether the task stops after it.
#[derive(Debug)]
pub struct AgentPumpAction {
    pub effect: AgentPumpEffect,
    pub stop: bool,
}

/// The feeding task's decision about each event: events are handed on, audio chunks sent,
/// errors of the audio stream or of a send handed on; when the audio ends the connection is
/// closed and the task stops; it also stops when the events end and when nobody listens.
pub open spec fn agent_pump_action(event: AgentPumpEvent) -> AgentPumpAction {
    match event {
        AgentPumpEvent::EventReady => AgentPumpAction { effect: AgentPumpEffect::ForwardEvent, stop: false },
        AgentPumpEvent::EventsEnded => AgentPumpAction { effect: AgentPumpEffect::CloseOutput, stop: true },
        AgentPumpEvent::AudioChunk(audio) => AgentPumpAction { effect: AgentPumpEffect::SendAudio(audio), stop: false },
        AgentPumpEvent::AudioFailed(message) =>
            AgentPumpAction { effect: AgentPumpEffect::Deliver(DeepgramError::StreamError(message)), stop: false },
        AgentPumpEvent::AudioEnded => AgentPumpAction { effect: AgentPumpEffect::CloseHandle, stop: true },
        AgentPumpEvent::SendFailed(err) => AgentPumpAction { effect: AgentPumpEffect::Deliver(err), stop: false },
        AgentPumpEvent::CloseFailed(err) => AgentPumpAction { effect: AgentPumpEffect::Report(err), stop: true },
        AgentPumpEvent::DeliveryFailed => AgentPumpAction { effect: AgentPumpEffect::Nothing, stop: true },
    }
}

/// Decides what the task that feeds an audio stream into a connection does about an event.
pub fn agent_pump_step(event: AgentPumpEvent) -> (action: AgentPumpAction)
    ensures
        action == agent_pump_action(event),
{
    match event {
        AgentPumpEvent::EventReady => AgentPumpAction { effect: AgentPumpEffect::ForwardEvent, stop: false },
        AgentPumpEvent::EventsEnded => AgentPumpAction { effect: AgentPumpEffect::CloseOutput, stop: true },
        AgentPumpEvent::AudioChunk(audio) => AgentPumpAction { effect: AgentPumpEffect::SendAudio(audio), stop: false },
        AgentPumpEvent::AudioFailed(message) =>
            AgentPumpAction { effect: AgentPumpEffect::Deliver(DeepgramError::StreamError(message)), stop: false },
        AgentPumpEvent::AudioEnded => AgentPumpAction { effect: AgentPumpEffect::CloseHandle, stop: true },
        AgentPumpEvent::SendFailed(err) => AgentPumpAction { effect: AgentPumpEffect::Deliver(err), stop: false },
        AgentPumpEvent::CloseFailed(err) => AgentPumpAction { effect: AgentPumpEffect::Report(err), stop: true },
        AgentPumpEvent::DeliveryFailed => AgentPumpAction { effect: AgentPumpEffect::Nothing, stop: true },
    }
}

} // verus!
