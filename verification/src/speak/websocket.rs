//! WebSocket-based live text-to-speech: the connection URL, the handshake, and the decisions
//! of the connection's worker.
//!
//! See the [Deepgram TTS WebSocket API Reference][api] for more info.
//!
//! [api]: https://developers.deepgram.com/docs/tts-websocket

use vstd::prelude::*;

use super::options::{encoding_name, model_id, Encoding, Model};
use crate::client::{Deepgram, DeepgramError, Result};
use crate::handshake::{handshake_for, handshake_matches, HandshakeRequest};
use crate::outside::{append_query_pairs, url_with_query};
use crate::text::{decimal, optional_pair, pair_views, u32_decimal};
use crate::websocket_url::{has_websocket_scheme, joins_to_web_url, keeps_security, websocket_url, websocket_url_for};

verus! {

/// The path of the live text-to-speech endpoint, relative to the base URL.
pub const LIVE_SPEAK_URL_PATH: &'static str = "v1/speak";

/// Text-to-speech requests of a client.
#[derive(Debug, Clone, Copy)]
pub struct Speak<'a>(&'a Deepgram);

impl Deepgram {
    /// Text-to-speech requests of this client.
    pub fn text_to_speech(&self) -> (speak: Speak<'_>)
        ensures
            speak.client() == self,
    {
        Speak(self)
    }
}

impl<'a> Speak<'a> {
    /// The client that makes these requests.
    pub closed spec fn client(&self) -> &'a Deepgram {
        self.0
    }

    /// Begin configuring a live TTS WebSocket connection.
    pub fn live(&self) -> (builder: SpeakWebsocketBuilder<'a>)
        ensures
            builder@ == (LiveSpeakView {
                base_url: self.client().base_url(),
                auth_value: self.client().auth_value(),
                model: None,
                encoding: None,
                sample_rate: None,
            }),
    {
        SpeakWebsocketBuilder { deepgram: self.0, model: None, encoding: None, sample_rate: None }
    }
}

/// Builder for configuring a live TTS WebSocket connection.
///
/// Constructed via [`Speak::live`].
#[derive(Debug)]
pub struct SpeakWebsocketBuilder<'a> {
    deepgram: &'a Deepgram,
    model: Option<Model>,
    encoding: Option<Encoding>,
    sample_rate: Option<u32>,
}

/// What a [`SpeakWebsocketBuilder`] holds: the client's base URL and credential, and the
/// features that were set.
pub struct LiveSpeakView {
    pub base_url: Seq<char>,
    pub auth_value: Option<Seq<char>>,
    pub model: Option<Model>,
    pub encoding: Option<Encoding>,
    pub sample_rate: Option<u32>,
}

impl<'a> View for SpeakWebsocketBuilder<'a> {
    type V = LiveSpeakView;

    closed spec fn view(&self) -> LiveSpeakView {
        LiveSpeakView {
            base_url: self.deepgram.base_url(),
            auth_value: self.deepgram.auth_value(),
            model: self.model,
            encoding: self.encoding,
            sample_rate: self.sample_rate,
        }
    }
}

/// The query pairs of a live connection: model, encoding and sample rate, those that are set,
/// in that order.
pub open spec fn live_speak_query(v: LiveSpeakView) -> Seq<(Seq<char>, Seq<char>)> {
    optional_pair("model"@, match v.model { Some(m) => Some(model_id(m)), None => None })
    + optional_pair("encoding"@, match v.encoding { Some(e) => Some(encoding_name(e)), None => None })
    + optional_pair("sample_rate"@, match v.sample_rate { Some(r) => Some(decimal(r as nat)), None => None })
}

/// The URL of a live connection: the endpoint path joined to the base URL, with its scheme
/// switched to `ws` or `wss`, and the query pairs appended where there are any.
pub open spec fn live_speak_url(v: LiveSpeakView) -> Option<Seq<char>> {
    match websocket_url(v.base_url, LIVE_SPEAK_URL_PATH@) {
        Some(url) => if live_speak_query(v).len() == 0 {
            Some(url)
        } else {
            url_with_query(url, live_speak_query(v))
        },
        None => None,
    }
}

/// The number of features set on a live connection.
pub open spec fn live_speak_feature_count(v: LiveSpeakView) -> int {
    (if v.model is Some { 1int } else { 0int })
    + (if v.encoding is Some { 1int } else { 0int })
    + (if v.sample_rate is Some { 1int } else { 0int })
}

/// Each feature set on a live connection reaches its URL. With none set, the URL is the
/// endpoint's WebSocket URL as it is; with any set, query pairs are appended to that URL,
/// one for each feature that is set: the model's identifier, the encoding's name and the
/// sample rate in decimal, whatever the other features are.
pub proof fn live_speak_url_carries_each_feature(v: LiveSpeakView)
    ensures
        live_speak_feature_count(v) == 0 ==> live_speak_url(v) == websocket_url(v.base_url, LIVE_SPEAK_URL_PATH@),
        live_speak_feature_count(v) > 0 ==> live_speak_url(v) == (match websocket_url(v.base_url, LIVE_SPEAK_URL_PATH@) {
            Some(u) => url_with_query(u, live_speak_query(v)),
            None => None,
        }),
        v.model is Some ==> live_speak_query(v).contains(("model"@, model_id(v.model->0))),
        v.encoding is Some ==> live_speak_query(v).contains(("encoding"@, encoding_name(v.encoding->0))),
        v.sample_rate is Some ==> live_speak_query(v).contains(("sample_rate"@, decimal(v.sample_rate->0 as nat))),
        live_speak_query(v).len() == live_speak_feature_count(v),
{
    let q = live_speak_query(v);
    let a = optional_pair("model"@, match v.model { Some(m) => Some(model_id(m)), None => None });
    let b = optional_pair("encoding"@, match v.encoding { Some(e) => Some(encoding_name(e)), None => None });
    let c = optional_pair("sample_rate"@, match v.sample_rate { Some(r) => Some(decimal(r as nat)), None => None });
    assert(q == a + b + c);
    if v.model is Some {
        assert(q[0] == ("model"@, model_id(v.model->0)));
    }
    if v.encoding is Some {
        assert(q[a.len() as int] == ("encoding"@, encoding_name(v.encoding->0)));
    }
    if v.sample_rate is Some {
        assert(q[(a.len() + b.len()) as int] == ("sample_rate"@, decimal(v.sample_rate->0 as nat)));
    }
}

impl<'a> SpeakWebsocketBuilder<'a> {
    /// Set the TTS model.
    pub fn model(self, model: Model) -> (b: Self)
        ensures
            b@ == (LiveSpeakView { model: Some(model), ..self@ }),
    {
        SpeakWebsocketBuilder { model: Some(model), ..self }
    }

    /// Set the audio encoding for the output.
    pub fn encoding(self, encoding: Encoding) -> (b: Self)
        ensures
            b@ == (LiveSpeakView { encoding: Some(encoding), ..self@ }),
    {
        SpeakWebsocketBuilder { encoding: Some(encoding), ..self }
    }

    /// Set the sample rate for the output audio.
    pub fn sample_rate(self, sample_rate: u32) -> (b: Self)
        ensures
            b@ == (LiveSpeakView { sample_rate: Some(sample_rate), ..self@ }),
    {
        SpeakWebsocketBuilder { sample_rate: Some(sample_rate), ..self }
    }

    /// Build the WebSocket URL with query parameters. Fails with
    /// [`DeepgramError::InvalidUrl`] where the URL cannot be built.
    pub fn build_url(&self) -> (res: Result<String>)
        ensures
            res is Ok <==> live_speak_url(self@) is Some,
            res is Ok ==> res->Ok_0@ == live_speak_url(self@)->0,
            res is Ok <==> joins_to_web_url(self@.base_url, LIVE_SPEAK_URL_PATH@),
            res is Ok ==> has_websocket_scheme(res->Ok_0@),
            res is Ok ==> keeps_security(self@.base_url, LIVE_SPEAK_URL_PATH@, res->Ok_0@),
            res is Err ==> res->Err_0 is InvalidUrl,
    {
        let url = match websocket_url_for(self.deepgram.base_url_text(), LIVE_SPEAK_URL_PATH) {
            Some(url) => url,
            None => return Err(DeepgramError::InvalidUrl),
        };
        let has_params = self.model.is_some() || self.encoding.is_some() || self.sample_rate.is_some();
        if !has_params {
            return Ok(url);
        }
        let mut pairs: Vec<(String, String)> = Vec::new();
        let ghost empty = pair_views(pairs@);
        if let Some(model) = &self.model {
            pairs.push(("model".to_owned(), model.as_ref().to_owned()));
        }
        let ghost after_model = pair_views(pairs@);
        assert(after_model =~= empty + optional_pair("model"@, match self.model { Some(m) => Some(model_id(m)), None => None }));
        if let Some(encoding) = &self.encoding {
            pairs.push(("encoding".to_owned(), encoding.as_str().to_owned()));
        }
        let ghost after_encoding = pair_views(pairs@);
        assert(after_encoding =~= after_model + optional_pair("encoding"@, match self.encoding { Some(e) => Some(encoding_name(e)), None => None }));
        if let Some(sample_rate) = self.sample_rate {
            pairs.push(("sample_rate".to_owned(), u32_decimal(sample_rate)));
        }
        assert(pair_views(pairs@) =~= after_encoding + optional_pair("sample_rate"@, match self.sample_rate { Some(r) => Some(decimal(r as nat)), None => None }));
        assert(pair_views(pairs@) == live_speak_query(self@));
        match append_query_pairs(url.as_str(), &pairs) {
            Ok(url) => Ok(url),
            Err(_) => Err(DeepgramError::InvalidUrl),
        }
    }

    /// The WebSocket upgrade request for this connection: its URL, and the headers with a
    /// fresh random `sec-websocket-key`. Fails with [`DeepgramError::InvalidUrl`] where the
    /// URL cannot be built or has no host.
    pub fn handshake(&self) -> (res: Result<HandshakeRequest>)
        ensures
            res is Ok <==> live_speak_url(self@) is Some && crate::outside::url_host(live_speak_url(self@)->0) is Some,
            res is Ok <==> joins_to_web_url(self@.base_url, LIVE_SPEAK_URL_PATH@),
            res is Ok ==> handshake_matches(res->Ok_0, live_speak_url(self@)->0, self@.auth_value),
            res is Err ==> res->Err_0 is InvalidUrl,
    {
        let url = self.build_url()?;
        handshake_for(url, self.deepgram)
    }
}

/// Events received from the Deepgram TTS WebSocket server.
#[derive(Debug, Clone)]
pub enum SpeakEvent {
    /// Raw audio data in the configured encoding/sample_rate.
    Audio(bytes::Bytes),
    /// Confirmation that all audio for the current text has been sent.
    Flushed,
    /// Confirmation that a barge-in (clear) was processed.
    Cleared,
    /// Metadata about the TTS session/model.
    Metadata {
        /// The unique request identifier.
        request_id: String,
        /// The model name used for synthesis.
        model_name: String,
        /// The model version.
        model_version: String,
        /// The model UUID.
        model_uuid: String,
    },
    /// A non-fatal warning from the server.
    Warning {
        /// Warning code.
        code: String,
        /// Warning message.
        message: String,
    },
    /// A fatal error from the server.
    Error {
        /// Error code.
        code: String,
        /// Error message.
        message: String,
    },
}

/// JSON messages received from the TTS WebSocket server, told apart by their `type` field.
#[derive(Debug)]
pub enum ServerMessage {
    /// `{"type":"Flushed"}`
    Flushed {},
    /// `{"type":"Cleared"}`
    Cleared {},
    /// `{"type":"Metadata", ...}`
    Metadata { request_id: String, model_name: String, model_version: String, model_uuid: String },
    /// `{"type":"Warning","warn_code":..,"warn_msg":..}`
    Warning { warn_code: String, warn_msg: String },
    /// `{"type":"Error","err_code":..,"err_msg":..}`
    Error { err_code: String, err_msg: String },
}

/// The event that a server message stands for: the same kind, with the same texts.
pub open spec fn server_event(msg: ServerMessage) -> SpeakEvent {
    match msg {
        ServerMessage::Flushed {} => SpeakEvent::Flushed,
        ServerMessage::Cleared {} => SpeakEvent::Cleared,
        ServerMessage::Metadata { request_id, model_name, model_version, model_uuid } =>
            SpeakEvent::Metadata { request_id, model_name, model_version, model_uuid },
        ServerMessage::Warning { warn_code, warn_msg } => SpeakEvent::Warning { code: warn_code, message: warn_msg },
        ServerMessage::Error { err_code, err_msg } => SpeakEvent::Error { code: err_code, message: err_msg },
    }
}

impl SpeakEvent {
    /// The event that a server message stands for.
    pub fn from_server_message(msg: ServerMessage) -> (event: SpeakEvent)
        ensures
            event == server_event(msg),
    {
        match msg {
            ServerMessage::Flushed {} => SpeakEvent::Flushed,
            ServerMessage::Cleared {} => SpeakEvent::Cleared,
            ServerMessage::Metadata { request_id, model_name, model_version, model_uuid } =>
                SpeakEvent::Metadata { request_id, model_name, model_version, model_uuid },
            ServerMessage::Warning { warn_code, warn_msg } => SpeakEvent::Warning { code: warn_code, message: warn_msg },
            ServerMessage::Error { err_code, err_msg } => SpeakEvent::Error { code: err_code, message: err_msg },
        }
    }
}

/// JSON messages sent to the TTS WebSocket server, told apart by their `type` field.
#[derive(Debug, Clone)]
pub enum ClientMessage {
    /// Text to synthesize.
    Speak { text: String },
    /// Synthesize what was sent so far and report [`SpeakEvent::Flushed`].
    Flush {},
    /// Drop buffered text and audio.
    Clear {},
    /// Finish and close the connection.
    Close {},
}

/// What the connection's worker learns: from the socket, from the handle, or about the outcome
/// of what it did.
#[derive(Debug)]
pub enum SpeakWorkerEvent {
    /// A binary frame arrived: audio.
    AudioFrame(bytes::Bytes),
    /// A text frame arrived and parsed as a server message.
    ServerText(ServerMessage),
    /// A text frame arrived that does not parse as a server message.
    UnparsableText(serde_json::Error),
    /// A ping arrived, with its payload.
    Ping(bytes::Bytes),
    /// A close frame arrived.
    CloseFrame,
    /// A pong or a raw frame arrived.
    OtherFrame,
    /// Reading from the socket failed.
    SocketError(tungstenite::Error),
    /// The socket has nothing more to read.
    SocketEnded,
    /// The handle asks for a message to be sent.
    Command(ClientMessage),
    /// The handle is gone: no more commands will come.
    CommandsEnded,
    /// Sending a message on the socket failed.
    SendFailed(tungstenite::Error),
    /// An event could not be handed to the handle: nobody listens any more.
    DeliveryFailed,
}

/// What the worker does about an event.
#[derive(Debug)]
pub enum SpeakWorkerEffect {
    /// Hand a result to the handle; if nobody listens, that is reported back as
    /// [`SpeakWorkerEvent::DeliveryFailed`].
    Deliver(Result<SpeakEvent>),
    /// Hand an error to the handle, whether or not anybody listens.
    Report(DeepgramError),
    /// Answer with a pong that carries the ping's payload; its outcome does not matter.
    Pong(bytes::Bytes),
    /// Send a message as a JSON text frame; a failure is reported back as
    /// [`SpeakWorkerEvent::SendFailed`].
    Send(ClientMessage),
    /// Send a close frame; its outcome does not matter.
    SendClose,
    /// Nothing.
    Nothing,
}

/// The worker's decision: an effect, and whether the worker stops after it.
#[derive(Debug)]
pub struct SpeakWorkerAction {
    pub effect: SpeakWorkerEffect,
    pub stop: bool,
}

/// The worker's decision about each event: audio and server messages are delivered, pings
/// answered, commands sent; the worker stops on a close frame, the end of the socket, a socket
/// error or a failed send (after reporting it), a gone handle (after sending a close frame),
/// and when nobody listens any more.
pub open spec fn speak_worker_action(event: SpeakWorkerEvent) -> SpeakWorkerAction {
    match event {
        SpeakWorkerEvent::AudioFrame(data) =>
            SpeakWorkerAction { effect: SpeakWorkerEffect::Deliver(Ok(SpeakEvent::Audio(data))), stop: false },
        SpeakWorkerEvent::ServerText(msg) =>
            SpeakWorkerAction { effect: SpeakWorkerEffect::Deliver(Ok(server_event(msg))), stop: false },
        SpeakWorkerEvent::UnparsableText(err) =>
            SpeakWorkerAction { effect: SpeakWorkerEffect::Deliver(Err(DeepgramError::JsonError(err))), stop: false },
        SpeakWorkerEvent::Ping(payload) =>
            SpeakWorkerAction { effect: SpeakWorkerEffect::Pong(payload), stop: false },
        SpeakWorkerEvent::CloseFrame => SpeakWorkerAction { effect: SpeakWorkerEffect::Nothing, stop: true },
        SpeakWorkerEvent::OtherFrame => SpeakWorkerAction { effect: SpeakWorkerEffect::Nothing, stop: false },
        SpeakWorkerEvent::SocketError(err) =>
            SpeakWorkerAction { effect: SpeakWorkerEffect::Report(DeepgramError::WsError(err)), stop: true },
        SpeakWorkerEvent::SocketEnded => SpeakWorkerAction { effect: SpeakWorkerEffect::Nothing, stop: true },
        SpeakWorkerEvent::Command(msg) => SpeakWorkerAction { effect: SpeakWorkerEffect::Send(msg), stop: false },
        SpeakWorkerEvent::CommandsEnded => SpeakWorkerAction { effect: SpeakWorkerEffect::SendClose, stop: true },
        SpeakWorkerEvent::SendFailed(err) =>
            SpeakWorkerAction { effect: SpeakWorkerEffect::Report(DeepgramError::WsError(err)), stop: true },
        SpeakWorkerEvent::DeliveryFailed => SpeakWorkerAction { effect: SpeakWorkerEffect::Nothing, stop: true },
    }
}

/// The worker stops exactly when the server closes, the socket ends or fails, a send fails,
/// the handle is gone, or nobody listens any more; no other event stops it.
pub proof fn speak_worker_stops_only_at_an_end(event: SpeakWorkerEvent)
    ensures
        speak_worker_action(event).stop <==> (event is CloseFrame || event is SocketEnded || event is SocketError
            || event is SendFailed || event is CommandsEnded || event is DeliveryFailed),
{
}

/// Decides what the connection's worker does about an event.
pub fn speak_worker_step(event: SpeakWorkerEvent) -> (action: SpeakWorkerAction)
    ensures
        action == speak_worker_action(event),
{
    match event {
        SpeakWorkerEvent::AudioFrame(data) =>
            SpeakWorkerAction { effect: SpeakWorkerEffect::Deliver(Ok(SpeakEvent::Audio(data))), stop: false },
        SpeakWorkerEvent::ServerText(msg) =>
            SpeakWorkerAction { effect: SpeakWorkerEffect::Deliver(Ok(SpeakEvent::from_server_message(msg))), stop: false },
        SpeakWorkerEvent::UnparsableText(err) =>
            SpeakWorkerAction { effect: SpeakWorkerEffect::Deliver(Err(DeepgramError::JsonError(err))), stop: false },
        SpeakWorkerEvent::Ping(payload) =>
            SpeakWorkerAction { effect: SpeakWorkerEffect::Pong(payload), stop: false },
        SpeakWorkerEvent::CloseFrame => SpeakWorkerAction { effect: SpeakWorkerEffect::Nothing, stop: true },
        SpeakWorkerEvent::OtherFrame => SpeakWorkerAction { effect: SpeakWorkerEffect::Nothing, stop: false },
        SpeakWorkerEvent::SocketError(err) =>
            SpeakWorkerAction { effect: SpeakWorkerEffect::Report(DeepgramError::WsError(err)), stop: true },
        SpeakWorkerEvent::SocketEnded => SpeakWorkerAction { effect: SpeakWorkerEffect::Nothing, stop: true },
        SpeakWorkerEvent::Command(msg) => SpeakWorkerAction { effect: SpeakWorkerEffect::Send(msg), stop: false },
        SpeakWorkerEvent::CommandsEnded => SpeakWorkerAction { effect: SpeakWorkerEffect::SendClose, stop: true },
        SpeakWorkerEvent::SendFailed(err) =>
            SpeakWorkerAction { effect: SpeakWorkerEffect::Report(DeepgramError::WsError(err)), stop: true },
        SpeakWorkerEvent::DeliveryFailed => SpeakWorkerAction { effect: SpeakWorkerEffect::Nothing, stop: true },
    }
}

/// What the task that feeds a text stream into a connection learns.
#[derive(Debug)]
pub enum SpeakPumpEvent {
    /// The connection produced an event (or error).
    EventReady,
    /// The connection produces no more events.
    EventsEnded,
    /// The text stream produced a text.
    Text(String),
    /// The last text was sent.
    TextSent,
    /// Sending a text, or the flush after it, failed.
    HandleFailed(DeepgramError),
    /// The text stream has ended.
    TextEnded,
    /// An event could not be handed on: nobody listens any more.
    DeliveryFailed,
}

/// What the feeding task does.
#[derive(Debug)]
pub enum SpeakPumpEffect {
    /// Hand the connection's event on; if nobody listens, that is reported back as
    /// [`SpeakPumpEvent::DeliveryFailed`].
    ForwardEvent,
    /// Close the channel that hands events on.
    CloseOutput,
    /// Send a text on the connection; success is reported back as [`SpeakPumpEvent::TextSent`],
    /// failure as [`SpeakPumpEvent::HandleFailed`].
    SendText(String),
    /// Flush the connection; failure is reported back as [`SpeakPumpEvent::HandleFailed`].
    Flush,
    /// Hand an error on, whether or not anybody listens.
    Report(DeepgramError),
    /// Close the connection; its outcome does not matter.
    CloseHandle,
    /// Nothing.
    Nothing,
}

/// The feeding task's decision: an effect, and whether the task stops after it.
#[derive(Debug)]
pub struct SpeakPumpAction {
    pub effect: SpeakPumpEffect,
    pub stop: bool,
}

/// The feeding task's decision about each event: events are handed on, each text is sent and
/// then flushed, the connection is closed when the texts end; the task stops when the events
/// end, when sending fails (after reporting it), and when nobody listens any more.
pub open spec fn speak_pump_action(event: SpeakPumpEvent) -> SpeakPumpAction {
    match event {
        SpeakPumpEvent::EventReady => SpeakPumpAction { effect: SpeakPumpEffect::ForwardEvent, stop: false },
        SpeakPumpEvent::EventsEnded => SpeakPumpAction { effect: SpeakPumpEffect::CloseOutput, stop: true },
        SpeakPumpEvent::Text(text) => SpeakPumpAction { effect: SpeakPumpEffect::SendText(text), stop: false },
        SpeakPumpEvent::TextSent => SpeakPumpAction { effect: SpeakPumpEffect::Flush, stop: false },
        SpeakPumpEvent::HandleFailed(err) => SpeakPumpAction { effect: SpeakPumpEffect::Report(err), stop: true },
        SpeakPumpEvent::TextEnded => SpeakPumpAction { effect: SpeakPumpEffect::CloseHandle, stop: false },
        SpeakPumpEvent::DeliveryFailed => SpeakPumpAction { effect: SpeakPumpEffect::Nothing, stop: true },
    }
}

/// Each text of the stream is sent, and once it is sent the connection is flushed; closing
/// the connection when the texts end does not stop the task, which goes on handing events on.
pub proof fn each_text_is_sent_then_flushed(text: String)
    ensures
        speak_pump_action(SpeakPumpEvent::Text(text)) == (SpeakPumpAction { effect: SpeakPumpEffect::SendText(text), stop: false }),
        speak_pump_action(SpeakPumpEvent::TextSent) == (SpeakPumpAction { effect: SpeakPumpEffect::Flush, stop: false }),
        !speak_pump_action(SpeakPumpEvent::TextEnded).stop,
{
}

/// Decides what the task that feeds a text stream into a connection does about an event.
pub fn speak_pump_step(event: SpeakPumpEvent) -> (action: SpeakPumpAction)
    ensures
        action == speak_pump_action(event),
{
    match event {
        SpeakPumpEvent::EventReady => SpeakPumpAction { effect: SpeakPumpEffect::ForwardEvent, stop: false },
        SpeakPumpEvent::EventsEnded => SpeakPumpAction { effect: SpeakPumpEffect::CloseOutput, stop: true },
        SpeakPumpEvent::Text(text) => SpeakPumpAction { effect: SpeakPumpEffect::SendText(text), stop: false },
        SpeakPumpEvent::TextSent => SpeakPumpAction { effect: SpeakPumpEffect::Flush, stop: false },
        SpeakPumpEvent::HandleFailed(err) => SpeakPumpAction { effect: SpeakPumpEffect::Report(err), stop: true },
        SpeakPumpEvent::TextEnded => SpeakPumpAction { effect: SpeakPumpEffect::CloseHandle, stop: false },
        SpeakPumpEvent::DeliveryFailed => SpeakPumpAction { effect: SpeakPumpEffect::Nothing, stop: true },
    }
}

} // verus!
