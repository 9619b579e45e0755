use deepgram::speak::options::{Encoding, Model};
use deepgram::speak::websocket::{
    speak_pump_step, speak_worker_step, ClientMessage, ServerMessage, SpeakEvent, SpeakPumpEffect,
    SpeakPumpEvent, SpeakWorkerEffect, SpeakWorkerEvent,
};
use deepgram::{Deepgram, DeepgramError};

#[test]
fn test_speak_ws_url() {
    let dg = Deepgram::new("token").unwrap();
    let speak = dg.text_to_speech();
    let builder = speak.live();
    let url = builder.build_url().unwrap();
    assert_eq!(url.to_string(), "wss://api.deepgram.com/v1/speak");
}

#[test]
fn test_speak_ws_url_with_params() {
    let dg = Deepgram::new("token").unwrap();
    let speak = dg.text_to_speech();
    let builder = speak
        .live()
        .model(Model::CustomId("aura-2-thalia-en".into()))
        .encoding(Encoding::Mulaw)
        .sample_rate(8000);
    let url = builder.build_url().unwrap();
    assert_eq!(
        url.to_string(),
        "wss://api.deepgram.com/v1/speak?model=aura-2-thalia-en&encoding=mulaw&sample_rate=8000"
    );
}

#[test]
fn test_speak_ws_url_custom_host() {
    let dg = Deepgram::with_base_url_and_api_key("http://localhost:8080", "token").unwrap();
    let speak = dg.text_to_speech();
    let builder = speak.live();
    let url = builder.build_url().unwrap();
    assert_eq!(url.to_string(), "ws://localhost:8080/v1/speak");
}

#[test]
fn speak_ws_url_keeps_secure_scheme_of_wss_base() {
    let dg = Deepgram::with_base_url_and_api_key("wss://example.com/base/", "token").unwrap();
    let url = dg.text_to_speech().live().build_url().unwrap();
    assert_eq!(url, "wss://example.com/base/v1/speak");
}

#[test]
fn speak_ws_url_only_set_params_in_fixed_order() {
    let dg = Deepgram::new("token").unwrap();
    let url = dg
        .text_to_speech()
        .live()
        .sample_rate(24000)
        .model(Model::Aura2HelenaEs)
        .build_url()
        .unwrap();
    assert_eq!(url, "wss://api.deepgram.com/v1/speak?model=aura-2-helena-es&sample_rate=24000");
}

#[test]
fn speak_ws_url_encodes_query_values() {
    let dg = Deepgram::new("token").unwrap();
    let url = dg
        .text_to_speech()
        .live()
        .encoding(Encoding::CustomEncoding("a b&c".into()))
        .build_url()
        .unwrap();
    assert_eq!(url, "wss://api.deepgram.com/v1/speak?encoding=a+b%26c");
}

#[test]
fn speak_handshake_headers() {
    let dg = Deepgram::new("secret").unwrap();
    let req = dg.text_to_speech().live().handshake().unwrap();
    assert_eq!(req.uri, "wss://api.deepgram.com/v1/speak");
    let names: Vec<&str> = req.headers.iter().map(|(k, _)| k.as_str()).collect();
    assert_eq!(
        names,
        vec!["sec-websocket-key", "host", "connection", "upgrade", "sec-websocket-version", "user-agent", "authorization"]
    );
    assert_eq!(req.headers[0].1.len(), 24);
    assert!(req.headers[0].1.ends_with("=="));
    assert_eq!(req.headers[1].1, "api.deepgram.com");
    assert_eq!(req.headers[2].1, "upgrade");
    assert_eq!(req.headers[3].1, "websocket");
    assert_eq!(req.headers[4].1, "13");
    assert_eq!(req.headers[6].1, "Token secret");
}

#[test]
fn speak_handshake_without_credential_has_no_authorization() {
    let dg = Deepgram::with_base_url("http://localhost:8080").unwrap();
    let req = dg.text_to_speech().live().handshake().unwrap();
    assert_eq!(req.uri, "ws://localhost:8080/v1/speak");
    assert_eq!(req.headers.len(), 6);
    assert_eq!(req.headers[1].1, "localhost");
}

#[test]
fn server_messages_map_to_events() {
    let ev = SpeakEvent::from_server_message(ServerMessage::Warning {
        warn_code: "1001".into(),
        warn_msg: "test".into(),
    });
    assert!(matches!(ev, SpeakEvent::Warning { ref code, ref message } if code == "1001" && message == "test"));
    let ev = SpeakEvent::from_server_message(ServerMessage::Error { err_code: "2001".into(), err_msg: "fatal".into() });
    assert!(matches!(ev, SpeakEvent::Error { ref code, ref message } if code == "2001" && message == "fatal"));
    assert!(matches!(SpeakEvent::from_server_message(ServerMessage::Flushed {}), SpeakEvent::Flushed));
    assert!(matches!(SpeakEvent::from_server_message(ServerMessage::Cleared {}), SpeakEvent::Cleared));
    let ev = SpeakEvent::from_server_message(ServerMessage::Metadata {
        request_id: "abc-123".into(),
        model_name: "Aura".into(),
        model_version: "2024-01".into(),
        model_uuid: "uuid-456".into(),
    });
    match ev {
        SpeakEvent::Metadata { request_id, model_name, model_version, model_uuid } => {
            assert_eq!(request_id, "abc-123");
            assert_eq!(model_name, "Aura");
            assert_eq!(model_version, "2024-01");
            assert_eq!(model_uuid, "uuid-456");
        }
        _ => panic!("expected Metadata"),
    }
}

#[test]
fn speak_worker_delivers_audio_and_answers_pings() {
    let a = speak_worker_step(SpeakWorkerEvent::AudioFrame(bytes::Bytes::from_static(b"pcm")));
    assert!(!a.stop);
    match a.effect {
        SpeakWorkerEffect::Deliver(Ok(SpeakEvent::Audio(data))) => assert_eq!(&data[..], b"pcm"),
        _ => panic!("expected audio delivery"),
    }
    let a = speak_worker_step(SpeakWorkerEvent::Ping(bytes::Bytes::from_static(b"p")));
    assert!(!a.stop);
    assert!(matches!(a.effect, SpeakWorkerEffect::Pong(ref p) if &p[..] == b"p"));
    let a = speak_worker_step(SpeakWorkerEvent::ServerText(ServerMessage::Flushed {}));
    assert!(!a.stop);
    assert!(matches!(a.effect, SpeakWorkerEffect::Deliver(Ok(SpeakEvent::Flushed))));
    let err = serde_json::from_str::<u32>("x").unwrap_err();
    let a = speak_worker_step(SpeakWorkerEvent::UnparsableText(err));
    assert!(!a.stop);
    assert!(matches!(a.effect, SpeakWorkerEffect::Deliver(Err(DeepgramError::JsonError(_)))));
    let a = speak_worker_step(SpeakWorkerEvent::OtherFrame);
    assert!(!a.stop && matches!(a.effect, SpeakWorkerEffect::Nothing));
}

#[test]
fn speak_worker_sends_commands_and_stops_when_closed() {
    let a = speak_worker_step(SpeakWorkerEvent::Command(ClientMessage::Speak { text: "Hello".into() }));
    assert!(!a.stop);
    assert!(matches!(a.effect, SpeakWorkerEffect::Send(ClientMessage::Speak { ref text }) if text == "Hello"));
    let a = speak_worker_step(SpeakWorkerEvent::CommandsEnded);
    assert!(a.stop && matches!(a.effect, SpeakWorkerEffect::SendClose));
    let a = speak_worker_step(SpeakWorkerEvent::CloseFrame);
    assert!(a.stop && matches!(a.effect, SpeakWorkerEffect::Nothing));
    let a = speak_worker_step(SpeakWorkerEvent::SocketEnded);
    assert!(a.stop && matches!(a.effect, SpeakWorkerEffect::Nothing));
    let a = speak_worker_step(SpeakWorkerEvent::SocketError(tungstenite::Error::ConnectionClosed));
    assert!(a.stop && matches!(a.effect, SpeakWorkerEffect::Report(DeepgramError::WsError(_))));
    let a = speak_worker_step(SpeakWorkerEvent::SendFailed(tungstenite::Error::AlreadyClosed));
    assert!(a.stop && matches!(a.effect, SpeakWorkerEffect::Report(DeepgramError::WsError(_))));
    let a = speak_worker_step(SpeakWorkerEvent::DeliveryFailed);
    assert!(a.stop && matches!(a.effect, SpeakWorkerEffect::Nothing));
}

#[test]
fn speak_pump_sends_then_flushes_each_text() {
    let a = speak_pump_step(SpeakPumpEvent::Text("hi".into()));
    assert!(!a.stop && matches!(a.effect, SpeakPumpEffect::SendText(ref t) if t == "hi"));
    let a = speak_pump_step(SpeakPumpEvent::TextSent);
    assert!(!a.stop && matches!(a.effect, SpeakPumpEffect::Flush));
    let a = speak_pump_step(SpeakPumpEvent::HandleFailed(DeepgramError::InvalidUrl));
    assert!(a.stop && matches!(a.effect, SpeakPumpEffect::Report(DeepgramError::InvalidUrl)));
    let a = speak_pump_step(SpeakPumpEvent::TextEnded);
    assert!(!a.stop && matches!(a.effect, SpeakPumpEffect::CloseHandle));
    let a = speak_pump_step(SpeakPumpEvent::EventReady);
    assert!(!a.stop && matches!(a.effect, SpeakPumpEffect::ForwardEvent));
    let a = speak_pump_step(SpeakPumpEvent::EventsEnded);
    assert!(a.stop && matches!(a.effect, SpeakPumpEffect::CloseOutput));
    let a = speak_pump_step(SpeakPumpEvent::DeliveryFailed);
    assert!(a.stop && matches!(a.effect, SpeakPumpEffect::Nothing));
}
