use deepgram::agent::types::{
    agent_event_kind, is_known_agent_event_type, AgentClientMessage, AgentConfig, AgentEventKind,
    AgentSettings, AudioInputSettings, AudioOutputSettings, AudioSettings, ListenConfig, SpeakConfig,
    ThinkConfig, ThinkProvider,
};
use deepgram::agent::websocket::{
    agent_pump_step, AgentPumpEffect, AgentPumpEvent, AgentWorker, AgentWorkerControl,
    AgentWorkerEffect, AgentWorkerEvent, FrameKind,
};
use deepgram::{Deepgram, DeepgramError};

fn dummy_settings() -> AgentSettings {
    AgentSettings {
        audio: AudioSettings {
            input: AudioInputSettings { encoding: "linear16".into(), sample_rate: 16000 },
            output: AudioOutputSettings {
                encoding: "linear16".into(),
                sample_rate: 16000,
                bitrate: None,
                container: None,
            },
        },
        agent: AgentConfig {
            language: None,
            listen: ListenConfig { provider: None },
            think: ThinkConfig {
                provider: ThinkProvider { provider_type: "open_ai".into(), model: None, instructions: None },
                functions: None,
            },
            speak: SpeakConfig { provider: None },
            greeting: None,
            context: None,
        },
        tags: None,
        mip_opt_out: None,
    }
}

#[test]
fn agent_url_default() {
    let dg = Deepgram::new("token").unwrap();
    let agent = dg.agent();
    let builder = agent.converse(dummy_settings());
    let url = builder.build_url().unwrap();
    assert_eq!(url.to_string(), "wss://api.deepgram.com/v1/agent/converse");
}

#[test]
fn agent_url_custom_host() {
    let dg = Deepgram::with_base_url_and_api_key("http://localhost:8080", "token").unwrap();
    let agent = dg.agent();
    let builder = agent.converse(dummy_settings());
    let url = builder.build_url().unwrap();
    assert_eq!(url.to_string(), "ws://localhost:8080/v1/agent/converse");
}

#[test]
fn agent_handshake_and_settings_message() {
    let dg = Deepgram::with_base_url_and_api_key("https://example.org", "k").unwrap();
    let builder = dg.agent().converse(dummy_settings());
    let req = builder.handshake().unwrap();
    assert_eq!(req.uri, "wss://example.org/v1/agent/converse");
    assert_eq!(req.headers[1], ("host".to_string(), "example.org".to_string()));
    assert_eq!(req.headers.last().unwrap(), &("authorization".to_string(), "Token k".to_string()));
    match builder.into_settings_message() {
        AgentClientMessage::Settings(payload) => {
            assert_eq!(payload.settings.audio.input.sample_rate, 16000);
            assert_eq!(payload.settings.agent.think.provider.provider_type, "open_ai");
        }
        _ => panic!("expected Settings"),
    }
}

#[test]
fn known_event_types() {
    for t in [
        "Welcome", "SettingsApplied", "ConversationText", "UserStartedSpeaking", "AgentThinking",
        "AgentStartedSpeaking", "AgentAudioDone", "FunctionCallRequest", "FunctionCallResponse",
        "PromptUpdated", "SpeakUpdated", "ThinkUpdated", "InjectionRefused", "Warning", "Error",
    ] {
        assert!(is_known_agent_event_type(t), "{t}");
    }
    assert!(!is_known_agent_event_type("FutureFeature"));
    assert!(!is_known_agent_event_type("welcome"));
    assert_eq!(agent_event_kind(Some("Welcome")), AgentEventKind::Known);
    assert_eq!(agent_event_kind(Some("FutureFeature")), AgentEventKind::Unknown);
    assert_eq!(agent_event_kind(None), AgentEventKind::Unknown);
}

fn raw(kind: FrameKind, is_final: bool, payload: &[u8]) -> AgentWorkerEvent {
    AgentWorkerEvent::RawFrame { kind, is_final, payload: payload.to_vec() }
}

#[test]
fn worker_reassembles_fragmented_text() {
    let (mut w, _) = AgentWorker::start("{}".into());
    let a = w.step(raw(FrameKind::Text, false, b"{\"type\":"));
    assert!(matches!(a.effect, AgentWorkerEffect::Nothing));
    let a = w.step(raw(FrameKind::Continuation, false, b"\"Agent"));
    assert!(matches!(a.effect, AgentWorkerEffect::Nothing));
    let a = w.step(raw(FrameKind::Continuation, true, b"AudioDone\"}"));
    assert!(matches!(a.control, AgentWorkerControl::Continue));
    match a.effect {
        AgentWorkerEffect::DeliverJson(data) => assert_eq!(data, b"{\"type\":\"AgentAudioDone\"}".to_vec()),
        _ => panic!("expected assembled message"),
    }
    // Nothing is left under assembly: a lone final continuation delivers nothing of it.
    match w.step(raw(FrameKind::Continuation, true, b"stray")).effect {
        AgentWorkerEffect::DeliverJson(data) => assert!(data.is_empty()),
        _ => panic!("expected delivery"),
    }
}

#[test]
fn worker_single_final_text_frame() {
    let (mut w, _) = AgentWorker::start("{}".into());
    match w.step(raw(FrameKind::Text, true, b"{}")).effect {
        AgentWorkerEffect::DeliverJson(data) => assert_eq!(data, b"{}".to_vec()),
        _ => panic!("expected delivery"),
    }
}

#[test]
fn worker_delivers_messages_and_answers_pings() {
    let (mut w, _) = AgentWorker::start("{}".into());
    let a = w.step(AgentWorkerEvent::TextFrame("{\"type\":\"Welcome\"}".into()));
    assert!(matches!(a.effect, AgentWorkerEffect::DeliverText(ref t) if t == "{\"type\":\"Welcome\"}"));
    let a = w.step(AgentWorkerEvent::AudioFrame(bytes::Bytes::from_static(b"aud")));
    assert!(matches!(a.effect, AgentWorkerEffect::DeliverAudio(ref b) if &b[..] == b"aud"));
    let a = w.step(AgentWorkerEvent::Ping(bytes::Bytes::from_static(b"x")));
    assert!(matches!(a.effect, AgentWorkerEffect::Pong(ref b) if &b[..] == b"x"));
    let a = w.step(AgentWorkerEvent::SocketError(tungstenite::Error::ConnectionClosed));
    assert!(matches!(a.effect, AgentWorkerEffect::DeliverError(DeepgramError::WsError(_))));
    assert!(matches!(a.control, AgentWorkerControl::Continue));
    let a = w.step(AgentWorkerEvent::DeliveryFailed);
    assert!(matches!(a.control, AgentWorkerControl::Break));
}

#[test]
fn worker_sends_settings_first() {
    let (w, first) = AgentWorker::start("{\"type\":\"Settings\"}".into());
    assert!(w.closes_on_exit());
    assert!(matches!(first.control, AgentWorkerControl::Continue));
    match first.effect {
        AgentWorkerEffect::SendSettings(json) => assert_eq!(json, "{\"type\":\"Settings\"}"),
        _ => panic!("expected the settings first"),
    }
}

#[test]
fn worker_ends_on_server_close() {
    let (mut w, _) = AgentWorker::start("{}".into());
    let a = w.step(AgentWorkerEvent::CloseFrameWith { code: 1011, reason: "boom".into() });
    match a.control {
        AgentWorkerControl::Return(Err(DeepgramError::WebsocketClose { code, reason })) => {
            assert_eq!(code, 1011);
            assert_eq!(reason, "boom");
        }
        _ => panic!("expected close error"),
    }
    assert!(matches!(w.step(AgentWorkerEvent::CloseFrame).control, AgentWorkerControl::Return(Ok(()))));
    assert!(matches!(w.step(AgentWorkerEvent::SocketEnded).control, AgentWorkerControl::Return(Ok(()))));
    let a = w.step(AgentWorkerEvent::SettingsSendFailed(tungstenite::Error::AlreadyClosed));
    assert!(matches!(a.effect, AgentWorkerEffect::ReportError(DeepgramError::WsError(_))));
    assert!(matches!(a.control, AgentWorkerControl::Return(Ok(()))));
}

#[test]
fn worker_ignores_commands_once_closed() {
    let (mut w, _) = AgentWorker::start("{}".into());
    assert!(w.closes_on_exit());
    let a = w.step(AgentWorkerEvent::AudioCommand(vec![1, 2, 3]));
    assert!(matches!(a.effect, AgentWorkerEffect::SendBinary(ref d) if d == &vec![1, 2, 3]));
    let a = w.step(AgentWorkerEvent::MessageCommand("{\"type\":\"KeepAlive\"}".into()));
    assert!(matches!(a.effect, AgentWorkerEffect::SendText(_)));
    let a = w.step(AgentWorkerEvent::CloseCommand);
    assert!(matches!(a.effect, AgentWorkerEffect::SendClose));
    assert!(!w.closes_on_exit());
    assert!(matches!(w.step(AgentWorkerEvent::CloseCommand).effect, AgentWorkerEffect::Nothing));
    assert!(matches!(w.step(AgentWorkerEvent::AudioCommand(vec![9])).effect, AgentWorkerEffect::Nothing));
    assert!(matches!(w.step(AgentWorkerEvent::MessageCommand("{}".into())).effect, AgentWorkerEffect::Nothing));
}

#[test]
fn agent_pump_decisions() {
    let a = agent_pump_step(AgentPumpEvent::AudioChunk(vec![5, 6]));
    assert!(!a.stop && matches!(a.effect, AgentPumpEffect::SendAudio(ref d) if d == &vec![5, 6]));
    let a = agent_pump_step(AgentPumpEvent::AudioFailed("mic unplugged".into()));
    assert!(!a.stop);
    assert!(matches!(a.effect, AgentPumpEffect::Deliver(DeepgramError::StreamError(ref m)) if m == "mic unplugged"));
    let a = agent_pump_step(AgentPumpEvent::AudioEnded);
    assert!(a.stop && matches!(a.effect, AgentPumpEffect::CloseHandle));
    let a = agent_pump_step(AgentPumpEvent::CloseFailed(DeepgramError::InvalidUrl));
    assert!(a.stop && matches!(a.effect, AgentPumpEffect::Report(DeepgramError::InvalidUrl)));
    let a = agent_pump_step(AgentPumpEvent::SendFailed(DeepgramError::InvalidUrl));
    assert!(!a.stop && matches!(a.effect, AgentPumpEffect::Deliver(DeepgramError::InvalidUrl)));
    let a = agent_pump_step(AgentPumpEvent::EventReady);
    assert!(!a.stop && matches!(a.effect, AgentPumpEffect::ForwardEvent));
    let a = agent_pump_step(AgentPumpEvent::EventsEnded);
    assert!(a.stop && matches!(a.effect, AgentPumpEffect::CloseOutput));
    let a = agent_pump_step(AgentPumpEvent::DeliveryFailed);
    assert!(a.stop && matches!(a.effect, AgentPumpEffect::Nothing));
}
