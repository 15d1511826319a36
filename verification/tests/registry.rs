use specter::config::Config;
use specter::errors::SpecterError;
use specter::peer_connection::{register_ready, close_peer_connection, Event, Msg};
use specter::specter_config::SpecterConfig;
use specter::state::State;
use specter::util::gen_uuid;

fn ready_state() -> State {
    let config = Config::new(vec!["stun:stun.example.org:19302".to_string()]);
    State::new(config)
}

#[test]
fn config_new_keeps_servers() {
    let config = Config::new(vec!["stun:a".to_string(), "turn:b".to_string()]);
    assert_eq!(config.ice_servers, vec!["stun:a".to_string(), "turn:b".to_string()]);
}

#[test]
fn config_parse_accepts_urls() {
    let parsed = Config::parse(Some(vec!["stun:a".to_string()])).unwrap();
    assert_eq!(parsed.ice_servers, vec!["stun:a".to_string()]);
}

#[test]
fn config_parse_rejects_malformed_options() {
    assert_eq!(Config::parse(None).unwrap_err(), SpecterError::InvalidConfiguration);
}

#[test]
fn gen_uuid_is_hyphenated_and_fresh() {
    let a = gen_uuid();
    let b = gen_uuid();
    assert_eq!(a.len(), 36);
    assert_eq!(b.len(), 36);
    assert_ne!(a, b);
}

#[test]
fn specter_config_flattens_in_order() {
    let groups = vec![
        vec!["stun:a".to_string(), "stun:b".to_string()],
        vec![],
        vec!["turn:c".to_string()],
    ];
    let flat = SpecterConfig::from_rtc_configuration(&groups);
    assert_eq!(
        flat.ice_servers,
        vec!["stun:a".to_string(), "stun:b".to_string(), "turn:c".to_string()]
    );
}

#[test]
fn new_media_engine_registers_a_fresh_engine() {
    let mut state = ready_state();
    let m1 = state.new_media_engine().unwrap();
    assert_eq!(m1.len(), 36);
    assert!(state.media_engine_exists(&m1));
    assert!(!state.registry_exists(&m1));
}

#[test]
fn new_registry_wires_against_a_live_engine() {
    let mut state = ready_state();
    let m1 = state.new_media_engine().unwrap();
    let r1 = state.new_registry(&m1).unwrap();
    assert!(state.registry_exists(&r1));
    // the engine is consumed only when an API is built from the pair
    assert!(state.media_engine_exists(&m1));
}

#[test]
fn new_registry_unknown_engine_is_not_found() {
    let mut state = ready_state();
    let bogus = gen_uuid();
    assert_eq!(state.new_registry(&bogus).unwrap_err(), SpecterError::NotFound);
}

#[test]
fn new_api_consumes_engine_and_registry() {
    let mut state = ready_state();
    let m1 = state.new_media_engine().unwrap();
    let r1 = state.new_registry(&m1).unwrap();
    let a1 = state.new_api(&m1, &r1).unwrap();
    assert_eq!(a1.len(), 36);
    assert!(!state.media_engine_exists(&m1));
    assert!(!state.registry_exists(&r1));
}

#[test]
fn consumed_engine_cannot_back_a_second_registry() {
    let mut state = ready_state();
    let m1 = state.new_media_engine().unwrap();
    let r1 = state.new_registry(&m1).unwrap();
    let _a1 = state.new_api(&m1, &r1).unwrap();
    // the transfer path made the engine id unusable for a second build
    assert_eq!(state.new_registry(&m1).unwrap_err(), SpecterError::NotFound);
}

#[test]
fn new_api_with_unknown_engine_is_not_found() {
    let mut state = ready_state();
    let m1 = state.new_media_engine().unwrap();
    let r1 = state.new_registry(&m1).unwrap();
    let bogus = gen_uuid();
    assert_eq!(state.new_api(&bogus, &r1).unwrap_err(), SpecterError::NotFound);
    // nothing was consumed by the failed build
    assert!(state.media_engine_exists(&m1));
    assert!(state.registry_exists(&r1));
}

#[test]
fn new_api_with_unknown_registry_is_not_found() {
    let mut state = ready_state();
    let m1 = state.new_media_engine().unwrap();
    let bogus = gen_uuid();
    assert_eq!(state.new_api(&m1, &bogus).unwrap_err(), SpecterError::NotFound);
    assert!(state.media_engine_exists(&m1));
}

#[test]
fn kind_mismatch_is_not_found() {
    let mut state = ready_state();
    let m1 = state.new_media_engine().unwrap();
    // a media-engine id does not resolve as an interceptor registry
    assert_eq!(state.new_api(&m1, &m1).unwrap_err(), SpecterError::NotFound);
    assert!(state.media_engine_exists(&m1));
}

#[test]
fn new_track_registers_a_handle() {
    let mut state = ready_state();
    let codec = specter::codec_capability::RtpCodecCapability {
        mime_type: "video/H264".to_string(),
        clock_rate: 90000,
        channels: 0,
        sdp_fmtp_line: String::new(),
    };
    let t1 = state
        .new_track_local_static_sample(&codec, "video".to_string(), "webrtc-rs".to_string())
        .unwrap();
    assert_eq!(t1.len(), 36);
}

#[test]
fn register_ready_then_close_then_close_again() {
    let mut state = ready_state();
    let conn_id = gen_uuid();
    let (tx, _rx) = tokio::sync::mpsc::channel::<Msg>(1000);
    let ev = register_ready(&mut state, conn_id.clone(), tx);
    assert!(matches!(ev, Event::PeerConnectionReady(ref id) if *id == conn_id));
    assert!(state.peer_connection_exists(&conn_id));

    close_peer_connection(&mut state, &conn_id).unwrap();
    assert!(!state.peer_connection_exists(&conn_id));
    // closing an already-closed connection reports NotFound, not a crash
    assert_eq!(
        close_peer_connection(&mut state, &conn_id).unwrap_err(),
        SpecterError::NotFound
    );
}

#[test]
fn close_unknown_connection_is_not_found() {
    let mut state = ready_state();
    let bogus = gen_uuid();
    assert_eq!(
        close_peer_connection(&mut state, &bogus).unwrap_err(),
        SpecterError::NotFound
    );
}

#[test]
fn registry_id_cannot_be_reused_after_close() {
    let mut state = ready_state();
    let conn_id = gen_uuid();
    let (tx, _rx) = tokio::sync::mpsc::channel::<Msg>(1000);
    let _ = register_ready(&mut state, conn_id.clone(), tx);
    close_peer_connection(&mut state, &conn_id).unwrap();
    // the id stays in the lifetime record: a second registration is refused
    let (tx2, _rx2) = tokio::sync::mpsc::channel::<Msg>(1000);
    let ev = register_ready(&mut state, conn_id.clone(), tx2);
    assert!(matches!(ev, Event::PeerConnectionError(ref id) if *id == conn_id));
    assert!(!state.peer_connection_exists(&conn_id));
}
