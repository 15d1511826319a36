use specter::actor::{Actor, EngineOutcome};
use specter::config::Config;
use specter::errors::SpecterError;
use specter::lifecycle::{lifecycle_step, LifecycleInput, Phase};
use specter::peer_conn_state::{
    ConnectionState, IceConnectionState, IceGatheringState, SignalingState,
};
use specter::peer_connection::{
    add_ice_candidate, add_track, connection_closed_event, connection_failed_event,
    connection_state, create_answer, create_data_channel, create_offer,
    get_current_local_description, get_stats, ice_connection_state, new_peer_connection,
    register_ready, set_local_description, set_remote_description, DescriptionKind, Event, Msg,
    OpTag,
};
use specter::state::State;
use specter::util::gen_uuid;

fn ready_state() -> State {
    let config = Config::new(vec!["stun:stun.example.org:19302".to_string()]);
    State::new(config)
}

/// A state with one registered connection mailbox; returns its id.
fn state_with_connection() -> (State, String) {
    let mut state = ready_state();
    let conn_id = gen_uuid();
    let (tx, rx) = tokio::sync::mpsc::channel::<Msg>(1000);
    // the receiver half stands in for the actor; leak it so sends stay possible
    std::mem::forget(rx);
    let _ = register_ready(&mut state, conn_id.clone(), tx);
    (state, conn_id)
}

const CANDIDATE_JSON: &str =
    "{\"candidate\":\"candidate:1 1 udp 2130706431 127.0.0.1 54400 typ host\",\"sdpMid\":\"0\",\"sdpMLineIndex\":0,\"usernameFragment\":\"abcd\"}";

const OFFER_JSON: &str = "{\"type\":\"offer\",\"sdp\":\"v=0\\r\\n\"}";

#[test]
fn new_peer_connection_unknown_api_is_not_found() {
    let state = ready_state();
    let bogus = gen_uuid();
    match new_peer_connection(&state, &bogus) {
        Err(e) => assert_eq!(e, SpecterError::NotFound),
        Ok(_) => panic!("an unknown api id must not resolve"),
    }
}

#[test]
fn commands_to_unknown_connection_are_not_found() {
    let state = ready_state();
    let bogus = gen_uuid();
    let candidate = CANDIDATE_JSON.to_string();
    assert_eq!(
        add_ice_candidate(&state, &bogus, &candidate).unwrap_err(),
        SpecterError::NotFound
    );
    let sdp = OFFER_JSON.to_string();
    assert_eq!(
        set_remote_description(&state, &bogus, &sdp).unwrap_err(),
        SpecterError::NotFound
    );
    assert_eq!(
        create_offer(&state, &bogus, false, false).unwrap_err(),
        SpecterError::NotFound
    );
    assert_eq!(get_stats(&state, &bogus).unwrap_err(), SpecterError::NotFound);
    assert_eq!(
        add_track(&state, &bogus, &bogus).unwrap_err(),
        SpecterError::NotFound
    );
}

#[test]
fn malformed_candidate_is_rejected_synchronously() {
    let (state, conn_id) = state_with_connection();
    let bad = "not json".to_string();
    assert_eq!(
        add_ice_candidate(&state, &conn_id, &bad).unwrap_err(),
        SpecterError::InvalidJson
    );
}

#[test]
fn valid_candidate_becomes_a_command() {
    let (state, conn_id) = state_with_connection();
    let candidate = CANDIDATE_JSON.to_string();
    let (_tx, msg) = add_ice_candidate(&state, &conn_id, &candidate).unwrap();
    assert!(matches!(msg, Msg::AddIceCandidate(_)));
}

#[test]
fn malformed_remote_description_is_rejected_synchronously() {
    let (state, conn_id) = state_with_connection();
    let bad = "not json".to_string();
    assert_eq!(
        set_remote_description(&state, &conn_id, &bad).unwrap_err(),
        SpecterError::InvalidJson
    );
}

#[test]
fn valid_descriptions_become_commands() {
    let (state, conn_id) = state_with_connection();
    let sdp = OFFER_JSON.to_string();
    let (_tx, msg) = set_remote_description(&state, &conn_id, &sdp).unwrap();
    assert!(matches!(msg, Msg::SetRemoteDescription(_)));
    let (_tx, msg) = set_local_description(&state, &conn_id, &sdp).unwrap();
    assert!(matches!(msg, Msg::SetLocalDescription(_)));
    assert_eq!(
        set_local_description(&state, &conn_id, &"{}".to_string()).unwrap_err(),
        SpecterError::InvalidJson
    );
}

#[test]
fn offer_answer_and_channel_commands_carry_their_options() {
    let (state, conn_id) = state_with_connection();
    let (_tx, msg) = create_offer(&state, &conn_id, true, false).unwrap();
    assert!(matches!(
        msg,
        Msg::CreateOffer { voice_activity_detection: true, ice_restart: false }
    ));
    let (_tx, msg) = create_answer(&state, &conn_id, true).unwrap();
    assert!(matches!(msg, Msg::CreateAnswer { voice_activity_detection: true }));
    let (_tx, msg) = create_data_channel(&state, &conn_id, "data".to_string()).unwrap();
    assert!(matches!(msg, Msg::CreateDataChannel(ref l) if l == "data"));
    let (_tx, msg) = get_current_local_description(&state, &conn_id).unwrap();
    assert!(matches!(msg, Msg::GetCurrentLocalDescription));
    let (_tx, msg) = ice_connection_state(&state, &conn_id).unwrap();
    assert!(matches!(msg, Msg::IceConnectionState));
    let (_tx, msg) = connection_state(&state, &conn_id).unwrap();
    assert!(matches!(msg, Msg::ConnectionState));
}

#[test]
fn add_track_distinguishes_unknown_track() {
    let mut state = ready_state();
    let conn_id = gen_uuid();
    let (tx, rx) = tokio::sync::mpsc::channel::<Msg>(1000);
    std::mem::forget(rx);
    let _ = register_ready(&mut state, conn_id.clone(), tx);
    let bogus = gen_uuid();
    assert_eq!(
        add_track(&state, &conn_id, &bogus).unwrap_err(),
        SpecterError::InvalidTrack
    );
    let codec = specter::codec_capability::RtpCodecCapability {
        mime_type: "video/H264".to_string(),
        clock_rate: 90000,
        channels: 0,
        sdp_fmtp_line: String::new(),
    };
    let t1 = state
        .new_track_local_static_sample(&codec, "video".to_string(), "webrtc-rs".to_string())
        .unwrap();
    let (_tx, msg) = add_track(&state, &conn_id, &t1).unwrap();
    assert!(matches!(msg, Msg::AddTrack(ref tid, _) if *tid == t1));
}

#[test]
fn candidate_acknowledgements_follow_the_outcomes() {
    let conn_id = gen_uuid();
    let mut actor = Actor::new(conn_id.clone());
    let init: webrtc::ice_transport::ice_candidate::RTCIceCandidateInit =
        serde_json::from_str(CANDIDATE_JSON).unwrap();
    let cmd = Msg::AddIceCandidate(init);
    let ev = actor.handle(&cmd, EngineOutcome::Applied).unwrap();
    assert!(matches!(ev, Event::CommandOk(ref id, OpTag::AddIceCandidate) if *id == conn_id));
    let ev = actor
        .handle(&cmd, EngineOutcome::Failed("bad candidate".to_string()))
        .unwrap();
    assert!(matches!(ev, Event::CandidateError(ref id, ref d) if *id == conn_id && d == "bad candidate"));
}

#[test]
fn offer_and_answer_events_carry_the_sdp() {
    let conn_id = gen_uuid();
    let mut actor = Actor::new(conn_id.clone());
    let offer_cmd = Msg::CreateOffer { voice_activity_detection: false, ice_restart: false };
    let ev = actor
        .handle(&offer_cmd, EngineOutcome::Sdp("{\"type\":\"offer\"}".to_string()))
        .unwrap();
    assert!(matches!(ev, Event::Offer(ref id, ref j) if *id == conn_id && j == "{\"type\":\"offer\"}"));
    let ev = actor
        .handle(&offer_cmd, EngineOutcome::Failed("no media".to_string()))
        .unwrap();
    assert!(matches!(ev, Event::OfferError(ref id, ref d) if *id == conn_id && d == "no media"));

    let answer_cmd = Msg::CreateAnswer { voice_activity_detection: false };
    let ev = actor
        .handle(&answer_cmd, EngineOutcome::Sdp("{\"type\":\"answer\"}".to_string()))
        .unwrap();
    assert!(matches!(ev, Event::Answer(ref id, _) if *id == conn_id));
    let ev = actor
        .handle(&answer_cmd, EngineOutcome::Failed("remote missing".to_string()))
        .unwrap();
    assert!(matches!(ev, Event::AnswerError(ref id, _) if *id == conn_id));
}

#[test]
fn data_channel_failure_reports_offer_error() {
    let conn_id = gen_uuid();
    let mut actor = Actor::new(conn_id.clone());
    let cmd = Msg::CreateDataChannel("data".to_string());
    let ev = actor.handle(&cmd, EngineOutcome::Applied).unwrap();
    assert!(matches!(ev, Event::DataChannelCreated(ref id) if *id == conn_id));
    let ev = actor
        .handle(&cmd, EngineOutcome::Failed("closed".to_string()))
        .unwrap();
    assert!(matches!(ev, Event::OfferError(ref id, _) if *id == conn_id));
}

#[test]
fn description_events_report_explicit_absence() {
    let conn_id = gen_uuid();
    let mut actor = Actor::new(conn_id.clone());
    let ev = actor
        .handle(&Msg::GetCurrentLocalDescription, EngineOutcome::MaybeDescription(None))
        .unwrap();
    assert!(matches!(
        ev,
        Event::Description(ref id, DescriptionKind::CurrentLocal, None) if *id == conn_id
    ));
    let ev = actor
        .handle(
            &Msg::GetRemoteDescription,
            EngineOutcome::MaybeDescription(Some("{\"type\":\"offer\"}".to_string())),
        )
        .unwrap();
    assert!(matches!(
        ev,
        Event::Description(ref id, DescriptionKind::Remote, Some(ref j))
            if *id == conn_id && j == "{\"type\":\"offer\"}"
    ));
    let ev = actor
        .handle(&Msg::GetStats, EngineOutcome::StatsJson("{}".to_string()))
        .unwrap();
    assert!(matches!(ev, Event::Stats(ref id, ref j) if *id == conn_id && j == "{}"));
}

#[test]
fn set_description_events_use_their_tags() {
    let conn_id = gen_uuid();
    let mut actor = Actor::new(conn_id.clone());
    let sd: webrtc::peer_connection::sdp::session_description::RTCSessionDescription =
        serde_json::from_str(OFFER_JSON).unwrap();
    let cmd = Msg::SetLocalDescription(sd.clone());
    let ev = actor.handle(&cmd, EngineOutcome::Applied).unwrap();
    assert!(matches!(ev, Event::CommandOk(_, OpTag::SetLocalDescription)));
    let ev = actor
        .handle(&cmd, EngineOutcome::Failed("bad sdp".to_string()))
        .unwrap();
    assert!(matches!(ev, Event::InvalidLocalDescription(_, ref d) if d == "bad sdp"));
    let cmd = Msg::SetRemoteDescription(sd);
    let ev = actor.handle(&cmd, EngineOutcome::Applied).unwrap();
    assert!(matches!(ev, Event::CommandOk(_, OpTag::SetRemoteDescription)));
    let ev = actor
        .handle(&cmd, EngineOutcome::Failed("bad sdp".to_string()))
        .unwrap();
    assert!(matches!(ev, Event::InvalidRemoteDescription(_, _)));
}

#[test]
fn state_queries_map_codes_to_abstract_states() {
    let conn_id = gen_uuid();
    let mut actor = Actor::new(conn_id.clone());
    let ev = actor.handle(&Msg::IceConnectionState, EngineOutcome::StateCode(2)).unwrap();
    assert!(matches!(ev, Event::IceConnectionState(_, IceConnectionState::Checking)));
    let ev = actor.handle(&Msg::IceGatheringState, EngineOutcome::StateCode(3)).unwrap();
    assert!(matches!(ev, Event::IceGatheringState(_, IceGatheringState::Complete)));
    let ev = actor.handle(&Msg::SignalingState, EngineOutcome::StateCode(1)).unwrap();
    assert!(matches!(ev, Event::SignalingState(_, SignalingState::Stable)));
    let ev = actor.handle(&Msg::ConnectionState, EngineOutcome::StateCode(3)).unwrap();
    assert!(matches!(ev, Event::ConnectionState(_, ConnectionState::Connected)));
    // an unknown code maps to the unspecified state
    let ev = actor.handle(&Msg::ConnectionState, EngineOutcome::StateCode(250)).unwrap();
    assert!(matches!(ev, Event::ConnectionState(_, ConnectionState::Unspecified)));
}

#[test]
fn from_code_tables_are_exact() {
    assert_eq!(IceConnectionState::from_code(0), IceConnectionState::Unspecified);
    assert_eq!(IceConnectionState::from_code(1), IceConnectionState::New);
    assert_eq!(IceConnectionState::from_code(4), IceConnectionState::Completed);
    assert_eq!(IceConnectionState::from_code(7), IceConnectionState::Closed);
    assert_eq!(IceGatheringState::from_code(2), IceGatheringState::Gathering);
    assert_eq!(SignalingState::from_code(4), SignalingState::HaveLocalPranswer);
    assert_eq!(SignalingState::from_code(6), SignalingState::Closed);
    assert_eq!(ConnectionState::from_code(5), ConnectionState::Failed);
    assert_eq!(ConnectionState::from_code(6), ConnectionState::Closed);
}

#[test]
fn failed_track_attachment_emits_nothing() {
    let conn_id = gen_uuid();
    let mut actor = Actor::new(conn_id);
    let codec = specter::codec_capability::RtpCodecCapability {
        mime_type: "video/H264".to_string(),
        clock_rate: 90000,
        channels: 0,
        sdp_fmtp_line: String::new(),
    };
    let track = webrtc::track::track_local::track_local_static_sample::TrackLocalStaticSample::new(
        webrtc::rtp_transceiver::rtp_codec::RTCRtpCodecCapability {
            mime_type: codec.mime_type.clone(),
            clock_rate: codec.clock_rate,
            channels: codec.channels,
            sdp_fmtp_line: codec.sdp_fmtp_line.clone(),
            rtcp_feedback: vec![],
        },
        "video".to_string(),
        "webrtc-rs".to_string(),
    );
    let cmd = Msg::AddTrack("track-id".to_string(), std::sync::Arc::new(track));
    let ev = actor.handle(&cmd, EngineOutcome::Failed("engine fault".to_string()));
    assert!(ev.is_none());
}

#[test]
fn candidate_events_arrive_in_submission_order() {
    let conn_id = gen_uuid();
    let mut actor = Actor::new(conn_id.clone());
    let init: webrtc::ice_transport::ice_candidate::RTCIceCandidateInit =
        serde_json::from_str(CANDIDATE_JSON).unwrap();
    let cmds = vec![
        Msg::AddIceCandidate(init.clone()),
        Msg::AddIceCandidate(init.clone()),
        Msg::AddIceCandidate(init),
    ];
    let outs = vec![
        EngineOutcome::Applied,
        EngineOutcome::Failed("second".to_string()),
        EngineOutcome::Applied,
    ];
    let evs = actor.handle_batch(&cmds, outs);
    assert_eq!(evs.len(), 3);
    assert!(matches!(evs[0], Event::CommandOk(_, OpTag::AddIceCandidate)));
    assert!(matches!(evs[1], Event::CandidateError(_, ref d) if d == "second"));
    assert!(matches!(evs[2], Event::CommandOk(_, OpTag::AddIceCandidate)));
}

#[test]
fn lifecycle_walks_creating_ready_closed() {
    let conn_id = gen_uuid();
    let (p, ev) = lifecycle_step(Phase::Creating, LifecycleInput::BuildSucceeded, &conn_id);
    assert_eq!(p, Phase::Ready);
    assert!(matches!(ev, Some(Event::PeerConnectionReady(ref id)) if *id == conn_id));
    let (p, ev) = lifecycle_step(p, LifecycleInput::CommandHandled, &conn_id);
    assert_eq!(p, Phase::Ready);
    assert!(ev.is_none());
    let (p, ev) = lifecycle_step(p, LifecycleInput::MailboxEnded, &conn_id);
    assert_eq!(p, Phase::Closed);
    assert!(matches!(ev, Some(Event::PeerConnectionClosed(ref id)) if *id == conn_id));
    // terminal: nothing more is ever emitted
    let (p, ev) = lifecycle_step(p, LifecycleInput::MailboxEnded, &conn_id);
    assert_eq!(p, Phase::Closed);
    assert!(ev.is_none());
}

#[test]
fn lifecycle_build_failure_is_terminal() {
    let conn_id = gen_uuid();
    let (p, ev) = lifecycle_step(Phase::Creating, LifecycleInput::BuildFailed, &conn_id);
    assert_eq!(p, Phase::Failed);
    assert!(matches!(ev, Some(Event::PeerConnectionError(ref id)) if *id == conn_id));
    let (p, ev) = lifecycle_step(p, LifecycleInput::BuildSucceeded, &conn_id);
    assert_eq!(p, Phase::Failed);
    assert!(ev.is_none());
}

#[test]
fn lifecycle_event_helpers_name_the_connection() {
    let ev = connection_failed_event("c1".to_string());
    assert!(matches!(ev, Event::PeerConnectionError(ref id) if id == "c1"));
    let ev = connection_closed_event("c1".to_string());
    assert!(matches!(ev, Event::PeerConnectionClosed(ref id) if id == "c1"));
}
