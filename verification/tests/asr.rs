use doubao_voice_input::asr::{
    connect_request, keeps_receiving, AsrClient, AsrEndpoint, AsrError, AsrResponse, AudioSender,
    DeviceCredentials, FrameHeader, FrameState, Opening, OpeningReply, ResponseType,
    FRAME_DURATION_MS,
};
use doubao_voice_input::config::AsrConfig;
use tokio_tungstenite::tungstenite::http::Uri;

fn response(response_type: ResponseType, error_msg: &str) -> AsrResponse {
    AsrResponse { response_type, text: String::new(), error_msg: error_msg.to_string() }
}

fn credentials() -> DeviceCredentials {
    DeviceCredentials { device_id: "4711".to_string(), token: "tok".to_string() }
}

fn endpoint() -> AsrEndpoint {
    AsrEndpoint {
        websocket_url: "wss://example.com/api/v1/ws".to_string(),
        aid: "99".to_string(),
        user_agent: "agent/1.0 (test)".to_string(),
    }
}

fn client() -> AsrClient<u32> {
    AsrClient::with_default_config(credentials())
}

#[test]
fn request_carries_the_handshake_headers() {
    let request = connect_request("wss://example.com/ws?aid=1", "agent", "a2V5").unwrap();
    assert_eq!(request.method().as_str(), "GET");
    assert_eq!(format!("{:?}", request.version()), "HTTP/1.1");
    assert_eq!(request.uri().to_string(), "wss://example.com/ws?aid=1");
    let header = |name: &str| request.headers()[name].to_str().unwrap().to_string();
    assert_eq!(request.headers().len(), 8);
    assert_eq!(header("User-Agent"), "agent");
    assert_eq!(header("proto-version"), "v2");
    assert_eq!(header("x-custom-keepalive"), "true");
    assert_eq!(header("Host"), "frontier-audio-ime-ws.doubao.com");
    assert_eq!(header("Connection"), "Upgrade");
    assert_eq!(header("Upgrade"), "websocket");
    assert_eq!(header("Sec-WebSocket-Version"), "13");
    assert_eq!(header("Sec-WebSocket-Key"), "a2V5");
}

#[test]
fn header_names_are_in_lower_case() {
    let request = connect_request("wss://example.com/", "agent", "a2V5").unwrap();
    for name in request.headers().keys() {
        assert_eq!(name.as_str(), name.as_str().to_lowercase());
    }
}

#[test]
fn invalid_requests_are_errors() {
    for (url, agent, key) in [
        ("not a uri", "agent", "a2V5"),
        ("", "agent", "a2V5"),
        ("wss://exa mple.com/", "agent", "a2V5"),
        ("wss://", "agent", "a2V5"),
        ("wss://example.com:port/", "bad\nagent", "a2V5"),
        ("wss://example.com/", "bad\nagent", "a2V5"),
        ("wss://example.com/", "bad\u{7f}agent", "a2V5"),
        ("wss://example.com/", "agent", "\u{1}"),
    ] {
        let text = match url.parse::<Uri>() {
            Err(error) => error.to_string(),
            Ok(_) => "failed to parse header value".to_string(),
        };
        let error = connect_request(url, agent, key).unwrap_err();
        assert_eq!(error.message(), text, "{url:?}");
        assert!(matches!(error, AsrError::InvalidRequest(reason) if reason == text));
    }
    assert_eq!(connect_request("", "agent", "a2V5").unwrap_err().message(), "empty string");
}

#[test]
fn header_values_may_hold_tabs_and_other_letters() {
    let request = connect_request("wss://example.com/", "a\tb 语", "").unwrap();
    assert_eq!(request.headers()["user-agent"].as_bytes(), "a\tb 语".as_bytes());
    assert_eq!(request.headers()["sec-websocket-key"].as_bytes(), b"");
}

#[test]
fn service_address() {
    assert_eq!(
        client().ws_url(&endpoint()),
        "wss://example.com/api/v1/ws?aid=99&device_id=4711"
    );
}

#[test]
fn new_task() {
    let task = client().connect_and_start_task(&endpoint()).unwrap();
    assert_eq!(task.token, "tok");
    assert_eq!(
        task.request.uri().to_string(),
        "wss://example.com/api/v1/ws?aid=99&device_id=4711"
    );
    assert_eq!(task.request.method().as_str(), "GET");
    assert_eq!(format!("{:?}", task.request.version()), "HTTP/1.1");
    assert_eq!(task.request.headers()["user-agent"], "agent/1.0 (test)");
    let id = uuid::Uuid::parse_str(&task.request_id).unwrap();
    assert_eq!(id.get_version_num(), 4);
    assert_eq!(id.to_string(), task.request_id);
    assert_eq!(task.request_id.len(), 36);
    assert_eq!(&task.request_id[14..15], "4");
    assert!(["8", "9", "a", "b"].contains(&&task.request_id[19..20]));
    let other = client().connect_and_start_task(&endpoint()).unwrap();
    assert_ne!(task.request_id, other.request_id);
}

#[test]
fn handshake_key_is_sixteen_bytes_in_base_64() {
    for _ in 0..50 {
        let task = client().connect_and_start_task(&endpoint()).unwrap();
        let key = task.request.headers()["sec-websocket-key"].to_str().unwrap().to_string();
        assert_eq!(key.len(), 24);
        assert!(key.ends_with("=="));
        assert!(key[..22].chars().all(|c| c.is_ascii_alphanumeric() || c == '+' || c == '/'));
        assert!("AQgw".contains(&key[21..22]));
    }
}

#[test]
fn task_with_an_invalid_address_is_an_error() {
    let wrong = AsrEndpoint { websocket_url: "not a uri".to_string(), ..endpoint() };
    assert!(matches!(
        client().connect_and_start_task(&wrong).unwrap_err(),
        AsrError::InvalidRequest(_)
    ));
    let wrong = AsrEndpoint { user_agent: "a\r\nb".to_string(), ..endpoint() };
    assert!(matches!(
        client().connect_and_start_task(&wrong).unwrap_err(),
        AsrError::InvalidRequest(_)
    ));
}

#[test]
fn session_settings_are_those_of_the_client() {
    let config = AsrConfig { vad_enabled: false, ..AsrConfig::default() };
    let client: AsrClient<u32> = AsrClient::new(credentials(), config);
    assert_eq!(client.session_settings(), ("4711".to_string(), config));
    assert_eq!(self::client().session_settings().1, AsrConfig::default());
}

#[test]
fn one_connection_is_kept_ready() {
    let mut client = client();
    assert!(client.warm_up());
    assert_eq!(client.take_or_connect(), None);
    assert_eq!(client.keep(1), None);
    assert!(!client.warm_up());
    assert_eq!(client.keep(2), Some(2));
    assert_eq!(client.take_or_connect(), Some(1));
    assert!(client.warm_up());
    assert_eq!(client.take_or_connect(), None);
}

#[test]
fn task_and_session_open_on_their_answer() {
    let waiting = |opening: Opening, response_type: ResponseType| {
        matches!(opening.on_response(&response(response_type, "")), OpeningReply::Waiting)
    };
    let started = |opening: Opening, response_type: ResponseType| {
        matches!(opening.on_response(&response(response_type, "")), OpeningReply::Started)
    };
    assert!(started(Opening::Task, ResponseType::TaskStarted));
    assert!(waiting(Opening::Task, ResponseType::SessionStarted));
    assert!(started(Opening::Session, ResponseType::SessionStarted));
    assert!(waiting(Opening::Session, ResponseType::TaskStarted));
    assert!(waiting(Opening::Session, ResponseType::InterimResult));
    assert!(waiting(Opening::Task, ResponseType::SessionFinished));
    assert!(waiting(Opening::Task, ResponseType::Other));
}

#[test]
fn refused_openings() {
    let message = |opening: Opening| {
        match opening.on_response(&response(ResponseType::Error, "no quota")) {
            OpeningReply::Failed(error) => error.message(),
            other => panic!("{other:?}"),
        }
    };
    assert_eq!(message(Opening::Task), "StartTask failed: no quota");
    assert_eq!(message(Opening::Session), "StartSession failed: no quota");
    assert!(matches!(
        Opening::Task.on_response(&response(ResponseType::Error, "x")),
        OpeningReply::Failed(AsrError::StartTaskFailed(_))
    ));
    assert!(matches!(
        Opening::Session.on_response(&response(ResponseType::Error, "x")),
        OpeningReply::Failed(AsrError::StartSessionFailed(_))
    ));
}

#[test]
fn closed_openings() {
    assert!(matches!(Opening::Task.on_close(), AsrError::ClosedBeforeTaskStarted));
    assert_eq!(Opening::Task.on_close().message(), "ASR WebSocket closed before TaskStarted");
    assert_eq!(
        Opening::Session.on_close().message(),
        "ASR WebSocket closed before SessionStarted"
    );
}

#[test]
fn opening_ends_with_the_first_answer_or_error() {
    let outcome = |types: &[ResponseType]| {
        for t in types {
            match Opening::Task.on_response(&response(*t, "")) {
                OpeningReply::Started => return true,
                OpeningReply::Failed(_) => return false,
                OpeningReply::Waiting => {}
            }
        }
        false
    };
    assert!(outcome(&[ResponseType::Other, ResponseType::TaskStarted, ResponseType::Error]));
    assert!(!outcome(&[ResponseType::Error, ResponseType::TaskStarted]));
    assert!(!outcome(&[ResponseType::Other]));
}

#[test]
fn frames_are_numbered() {
    let mut sender = AudioSender::new(1_000);
    assert!(sender.can_send());
    assert_eq!(sender.frames_sent(), 0);
    assert!(sender.finish().is_none());
    assert_eq!(sender.header(), FrameHeader { state: FrameState::First, timestamp_ms: 1_000 });
    sender.frame_sent();
    assert_eq!(sender.header(), FrameHeader { state: FrameState::Middle, timestamp_ms: 1_020 });
    sender.frame_sent();
    assert_eq!(sender.header(), FrameHeader { state: FrameState::Middle, timestamp_ms: 1_040 });
    assert_eq!(sender.frames_sent(), 2);
    let (frame, header) = sender.finish().unwrap();
    assert_eq!(frame, vec![0u8; 100]);
    assert_eq!(header, FrameHeader { state: FrameState::Last, timestamp_ms: 1_040 });
    assert_eq!(FRAME_DURATION_MS, 20);
}

#[test]
fn frames_end_with_the_clock() {
    let mut sender = AudioSender::new(u64::MAX - 20);
    assert!(sender.can_send());
    sender.frame_sent();
    assert!(sender.can_send());
    sender.frame_sent();
    assert!(!sender.can_send());
}

#[test]
fn receiving_goes_on_until_the_end() {
    assert!(keeps_receiving(ResponseType::InterimResult, true));
    assert!(keeps_receiving(ResponseType::FinalResult, true));
    assert!(keeps_receiving(ResponseType::Other, true));
    assert!(!keeps_receiving(ResponseType::InterimResult, false));
    assert!(!keeps_receiving(ResponseType::SessionFinished, true));
    assert!(!keeps_receiving(ResponseType::Error, true));
}

#[test]
fn nothing_is_passed_on_after_the_end() {
    let types = [
        ResponseType::VadStart,
        ResponseType::InterimResult,
        ResponseType::SessionFinished,
        ResponseType::FinalResult,
    ];
    let mut passed_on = Vec::new();
    for t in types {
        passed_on.push(t);
        if !keeps_receiving(t, true) {
            break;
        }
    }
    assert_eq!(passed_on, types[..3]);
}
