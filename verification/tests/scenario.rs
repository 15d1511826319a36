//! The end-to-end setup chain, driven against the real engine: initialize,
//! build the engine/registry/API chain, create a connection, and observe
//! readiness.

use specter::config::Config;
use specter::peer_connection::{
    close_peer_connection, new_peer_connection, register_ready, Event, Msg,
};
use specter::state::State;

#[test]
fn setup_chain_reaches_ready() {
    let config =
        Config::parse(Some(vec!["stun:stun.example.org:19302".to_string()])).unwrap();
    let mut state = State::new(config);

    let m1 = state.new_media_engine().unwrap();
    let r1 = state.new_registry(&m1).unwrap();
    let a1 = state.new_api(&m1, &r1).unwrap();
    assert!(!state.media_engine_exists(&m1));

    let (c1, api) = new_peer_connection(&state, &a1).unwrap();
    assert_eq!(c1.len(), 36);

    // What the spawned task does: snapshot the configuration, build the
    // native connection, then register the mailbox and report readiness.
    let rt = tokio::runtime::Builder::new_current_thread()
        .enable_all()
        .build()
        .unwrap();
    let rtc_config = webrtc::peer_connection::configuration::RTCConfiguration {
        ice_servers: vec![webrtc::ice_transport::ice_server::RTCIceServer {
            urls: state.config.ice_servers.clone(),
            ..Default::default()
        }],
        ..Default::default()
    };
    let pc = rt
        .block_on(api.new_peer_connection(rtc_config))
        .expect("the engine builds a connection locally");

    let (tx, _rx) = tokio::sync::mpsc::channel::<Msg>(1000);
    let ev = register_ready(&mut state, c1.clone(), tx);
    assert!(matches!(ev, Event::PeerConnectionReady(ref id) if *id == c1));
    assert!(state.peer_connection_exists(&c1));

    close_peer_connection(&mut state, &c1).unwrap();
    assert!(!state.peer_connection_exists(&c1));

    rt.block_on(async {
        let _ = pc.close().await;
    });
}
