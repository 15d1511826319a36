//! The command/event protocol of the per-connection actor, and the
//! synchronous, caller-side half of every connection operation: resolve the
//! connection's mailbox in the registry, validate payloads, and hand back
//! the message to enqueue. The host performs the actual asynchronous send.

use vstd::prelude::*;

use std::sync::Arc;

use crate::engine::arc_clone;
use crate::engine::ice_candidate_accepted;
use crate::engine::parse_ice_candidate;
use crate::engine::parse_session_description;
use crate::engine::sender_clone;
use crate::engine::session_description_accepted;
use crate::errors::SpecterError;
use crate::peer_conn_state::ConnectionState;
use crate::peer_conn_state::IceConnectionState;
use crate::peer_conn_state::IceGatheringState;
use crate::peer_conn_state::SignalingState;
use crate::state::ResourceKind;
use crate::state::State;
use crate::util::gen_uuid;

verus! {

/// A command addressed to one connection's actor. The connection id is
/// stripped before the command enters the mailbox: the mailbox is already
/// per-connection.
#[derive(Debug)]
pub enum Msg {
    /// Apply a validated ICE candidate.
    AddIceCandidate(webrtc::ice_transport::ice_candidate::RTCIceCandidateInit),
    /// Attach a local track; carries the track's registry id and its handle.
    AddTrack(String, Arc<webrtc::track::track_local::track_local_static_sample::TrackLocalStaticSample>),
    /// Create an answer, with voice-activity detection on or off.
    CreateAnswer { voice_activity_detection: bool },
    /// Create a data channel with the given label.
    CreateDataChannel(String),
    /// Create an offer, with voice-activity detection and ICE restart flags.
    CreateOffer { voice_activity_detection: bool, ice_restart: bool },
    GetCurrentLocalDescription,
    GetCurrentRemoteDescription,
    GetLocalDescription,
    GetPendingLocalDescription,
    GetPendingRemoteDescription,
    GetRemoteDescription,
    GetStats,
    /// Apply a validated local session description.
    SetLocalDescription(webrtc::peer_connection::sdp::session_description::RTCSessionDescription),
    /// Apply a validated remote session description.
    SetRemoteDescription(webrtc::peer_connection::sdp::session_description::RTCSessionDescription),
    IceConnectionState,
    IceGatheringState,
    SignalingState,
    ConnectionState,
}

/// The operation a plain success event acknowledges.
#[derive(Clone, Copy, Debug, PartialEq, Eq, Structural)]
pub enum OpTag {
    AddIceCandidate,
    SetLocalDescription,
    SetRemoteDescription,
}

/// Which description a description event reports.
#[derive(Clone, Copy, Debug, PartialEq, Eq, Structural)]
pub enum DescriptionKind {
    CurrentLocal,
    CurrentRemote,
    Local,
    PendingLocal,
    PendingRemote,
    Remote,
}

/// An asynchronous outcome delivered to the subscriber. Every variant
/// carries the connection id it concerns.
#[derive(Debug)]
pub enum Event {
    /// The connection was built and its mailbox registered.
    PeerConnectionReady(String),
    /// The engine failed to build the connection; the id is discarded.
    PeerConnectionError(String),
    /// The mailbox was drained after its sender was dropped; terminal.
    PeerConnectionClosed(String),
    /// A command with no payload in its acknowledgement succeeded.
    CommandOk(String, OpTag),
    /// The engine rejected an ICE candidate; carries its message.
    CandidateError(String, String),
    /// A track was attached: the track's id and the new sender's id.
    RtpSender(String, String, String),
    /// A created offer, serialized.
    Offer(String, String),
    /// The engine could not create an offer or a data channel.
    OfferError(String, String),
    /// A created answer, serialized.
    Answer(String, String),
    /// The engine could not create an answer.
    AnswerError(String, String),
    /// A data channel was created.
    DataChannelCreated(String),
    /// A queried description, serialized, or explicitly absent.
    Description(String, DescriptionKind, Option<String>),
    /// A serialized statistics snapshot.
    Stats(String, String),
    /// The engine rejected a local description; carries its message.
    InvalidLocalDescription(String, String),
    /// The engine rejected a remote description; carries its message.
    InvalidRemoteDescription(String, String),
    /// An unsolicited, discovered ICE candidate, serialized.
    IceCandidate(String, String),
    /// The queried ICE connection state.
    IceConnectionState(String, IceConnectionState),
    /// The queried ICE gathering state.
    IceGatheringState(String, IceGatheringState),
    /// The queried signaling state.
    SignalingState(String, SignalingState),
    /// The queried peer-connection state.
    ConnectionState(String, ConnectionState),
    /// A file played onto a local track ran out of frames; carries the
    /// track's id.
    PlaybackFinished(String),
}

/// Resolves the API and allocates a fresh connection id, without blocking:
/// the caller spawns the actor task for the returned id around the returned
/// API handle. On `NotFound` nothing is allocated and no task may be
/// spawned, so no event is ever emitted for the attempt.
pub fn new_peer_connection(state: &State, api_uuid: &String) -> (r: Result<
    (String, Arc<webrtc::api::API>),
    SpecterError,
>)
    requires
        state.wf(),
    ensures
        match r {
            Ok(p) => state.has(api_uuid@, ResourceKind::Api) && p.0@.len() == 36,
            Err(e) => e == SpecterError::NotFound && !state.has(api_uuid@, ResourceKind::Api),
        },
{
    let api = match state.get_api(api_uuid) {
        None => {
            return Err(SpecterError::NotFound);
        },
        Some(a) => arc_clone(a),
    };
    let uuid = gen_uuid();
    Ok((uuid, api))
}

/// Removes and drops the registry's mailbox sender for the id. The actor
/// observes the closed mailbox at its next receive and reports the terminal
/// closed event; an absent or already-closed id is `NotFound`, and a second
/// close can never succeed because the entry is gone.
pub fn close_peer_connection(state: &mut State, pc_uuid: &String) -> (r: Result<
    (),
    SpecterError,
>)
    requires
        old(state).wf(),
    ensures
        final(state).wf(),
        final(state).cfg() == old(state).cfg(),
        match r {
            Ok(()) => old(state).has(pc_uuid@, ResourceKind::PeerConnectionSender)
                && crate::state::removes_entry(*old(state), *final(state), pc_uuid@),
            Err(e) => e == SpecterError::NotFound && !old(state).has(
                pc_uuid@,
                ResourceKind::PeerConnectionSender,
            ) && *final(state) == *old(state),
        },
{
    match state.take_entry(pc_uuid, ResourceKind::PeerConnectionSender) {
        None => Err(SpecterError::NotFound),
        Some(_tx) => Ok(()),
    }
}

/// Registers the mailbox sender of a freshly built connection and reports
/// readiness. A collision of the generated id with one already used is
/// reported as a connection-creation failure: the id is discarded and never
/// registered.
pub fn register_ready(state: &mut State, conn_id: String, tx: tokio::sync::mpsc::Sender<Msg>) -> (ev:
    Event)
    requires
        old(state).wf(),
    ensures
        final(state).wf(),
        final(state).cfg() == old(state).cfg(),
        if old(state).is_used(conn_id@) {
            ev == Event::PeerConnectionError(conn_id) && *final(state) == *old(state)
        } else {
            ev == Event::PeerConnectionReady(conn_id) && crate::state::adds_entry(
                *old(state),
                *final(state),
                conn_id@,
                ResourceKind::PeerConnectionSender,
            )
        },
{
    if state.id_in_use(&conn_id) {
        Event::PeerConnectionError(conn_id)
    } else {
        let id_copy = conn_id.clone();
        state.insert_entry(id_copy, crate::state::Resource::PeerConnectionSender(tx));
        Event::PeerConnectionReady(conn_id)
    }
}

/// The event reported when the engine could not build a connection: the
/// attempt is terminal and the id was never registered.
pub fn connection_failed_event(conn_id: String) -> (ev: Event)
    ensures
        ev == Event::PeerConnectionError(conn_id),
{
    Event::PeerConnectionError(conn_id)
}

/// The terminal event reported when the actor drains its closed mailbox.
pub fn connection_closed_event(conn_id: String) -> (ev: Event)
    ensures
        ev == Event::PeerConnectionClosed(conn_id),
{
    Event::PeerConnectionClosed(conn_id)
}

/// Validates an ICE candidate payload against the connection id and builds
/// the command to enqueue: an unknown or closed id is `NotFound`, a payload
/// the parser rejects is `InvalidJson`, both synchronously and before any
/// actor involvement.
pub fn add_ice_candidate(state: &State, pc_uuid: &String, candidate: &String) -> (r: Result<
    (tokio::sync::mpsc::Sender<Msg>, Msg),
    SpecterError,
>)
    requires
        state.wf(),
    ensures
        match r {
            Ok(p) => state.has(pc_uuid@, ResourceKind::PeerConnectionSender)
                && ice_candidate_accepted(candidate@) && (p.1 matches Msg::AddIceCandidate(_)),
            Err(SpecterError::NotFound) => !state.has(
                pc_uuid@,
                ResourceKind::PeerConnectionSender,
            ),
            Err(SpecterError::InvalidJson) => state.has(
                pc_uuid@,
                ResourceKind::PeerConnectionSender,
            ) && !ice_candidate_accepted(candidate@),
            Err(_) => false,
        },
{
    let tx = match state.get_peer_connection(pc_uuid) {
        None => {
            return Err(SpecterError::NotFound);
        },
        Some(tx) => sender_clone(tx),
    };
    match parse_ice_candidate(candidate.as_str()) {
        Err(_) => Err(SpecterError::InvalidJson),
        Ok(init) => Ok((tx, Msg::AddIceCandidate(init))),
    }
}

/// Validates a local description payload and builds the command to enqueue;
/// malformed JSON is rejected synchronously, before the actor sees it.
pub fn set_local_description(state: &State, pc_uuid: &String, sdp: &String) -> (r: Result<
    (tokio::sync::mpsc::Sender<Msg>, Msg),
    SpecterError,
>)
    requires
        state.wf(),
    ensures
        match r {
            Ok(p) => state.has(pc_uuid@, ResourceKind::PeerConnectionSender)
                && session_description_accepted(sdp@) && (p.1 matches Msg::SetLocalDescription(_)),
            Err(SpecterError::NotFound) => !state.has(
                pc_uuid@,
                ResourceKind::PeerConnectionSender,
            ),
            Err(SpecterError::InvalidJson) => state.has(
                pc_uuid@,
                ResourceKind::PeerConnectionSender,
            ) && !session_description_accepted(sdp@),
            Err(_) => false,
        },
{
    let tx = match state.get_peer_connection(pc_uuid) {
        None => {
            return Err(SpecterError::NotFound);
        },
        Some(tx) => sender_clone(tx),
    };
    match parse_session_description(sdp.as_str()) {
        Err(_) => Err(SpecterError::InvalidJson),
        Ok(sd) => Ok((tx, Msg::SetLocalDescription(sd))),
    }
}

/// Validates a remote description payload and builds the command to
/// enqueue; malformed JSON is rejected synchronously, before the actor sees
/// it.
pub fn set_remote_description(state: &State, pc_uuid: &String, sdp: &String) -> (r: Result<
    (tokio::sync::mpsc::Sender<Msg>, Msg),
    SpecterError,
>)
    requires
        state.wf(),
    ensures
        match r {
            Ok(p) => state.has(pc_uuid@, ResourceKind::PeerConnectionSender)
                && session_description_accepted(sdp@) && (p.1 matches Msg::SetRemoteDescription(_)),
            Err(SpecterError::NotFound) => !state.has(
                pc_uuid@,
                ResourceKind::PeerConnectionSender,
            ),
            Err(SpecterError::InvalidJson) => state.has(
                pc_uuid@,
                ResourceKind::PeerConnectionSender,
            ) && !session_description_accepted(sdp@),
            Err(_) => false,
        },
{
    let tx = match state.get_peer_connection(pc_uuid) {
        None => {
            return Err(SpecterError::NotFound);
        },
        Some(tx) => sender_clone(tx),
    };
    match parse_session_description(sdp.as_str()) {
        Err(_) => Err(SpecterError::InvalidJson),
        Ok(sd) => Ok((tx, Msg::SetRemoteDescription(sd))),
    }
}

/// Resolves the connection's mailbox and the referenced track, and builds
/// the command that attaches the track; an unknown connection id is
/// `NotFound`, an unknown track id is `InvalidTrack`.
pub fn add_track(state: &State, pc_uuid: &String, track_uuid: &String) -> (r: Result<
    (tokio::sync::mpsc::Sender<Msg>, Msg),
    SpecterError,
>)
    requires
        state.wf(),
    ensures
        match r {
            Ok(p) => state.has(pc_uuid@, ResourceKind::PeerConnectionSender) && state.has(
                track_uuid@,
                ResourceKind::TrackHandle,
            ) && (p.1 matches Msg::AddTrack(tid, _) && tid == *track_uuid),
            Err(SpecterError::NotFound) => !state.has(
                pc_uuid@,
                ResourceKind::PeerConnectionSender,
            ),
            Err(SpecterError::InvalidTrack) => state.has(
                pc_uuid@,
                ResourceKind::PeerConnectionSender,
            ) && !state.has(track_uuid@, ResourceKind::TrackHandle),
            Err(_) => false,
        },
{
    let tx = match state.get_peer_connection(pc_uuid) {
        None => {
            return Err(SpecterError::NotFound);
        },
        Some(tx) => sender_clone(tx),
    };
    match state.get_track_local_static_sample(track_uuid) {
        None => Err(SpecterError::InvalidTrack),
        Some(track) => {
            let handle = arc_clone(track);
            Ok((tx, Msg::AddTrack(track_uuid.clone(), handle)))
        },
    }
}

/// Builds the command that creates an answer for the connection.
pub fn create_answer(state: &State, pc_uuid: &String, voice_activity_detection: bool) -> (r: Result<
    (tokio::sync::mpsc::Sender<Msg>, Msg),
    SpecterError,
>)
    requires
        state.wf(),
    ensures
        match r {
            Ok(p) => state.has(pc_uuid@, ResourceKind::PeerConnectionSender) && p.1
                == (Msg::CreateAnswer { voice_activity_detection }),
            Err(e) => e == SpecterError::NotFound && !state.has(
                pc_uuid@,
                ResourceKind::PeerConnectionSender,
            ),
        },
{
    match state.get_peer_connection(pc_uuid) {
        None => Err(SpecterError::NotFound),
        Some(tx) => Ok((sender_clone(tx), Msg::CreateAnswer { voice_activity_detection })),
    }
}

/// Builds the command that creates an offer for the connection.
pub fn create_offer(
    state: &State,
    pc_uuid: &String,
    voice_activity_detection: bool,
    ice_restart: bool,
) -> (r: Result<(tokio::sync::mpsc::Sender<Msg>, Msg), SpecterError>)
    requires
        state.wf(),
    ensures
        match r {
            Ok(p) => state.has(pc_uuid@, ResourceKind::PeerConnectionSender) && p.1
                == (Msg::CreateOffer { voice_activity_detection, ice_restart }),
            Err(e) => e == SpecterError::NotFound && !state.has(
                pc_uuid@,
                ResourceKind::PeerConnectionSender,
            ),
        },
{
    match state.get_peer_connection(pc_uuid) {
        None => Err(SpecterError::NotFound),
        Some(tx) => Ok(
            (sender_clone(tx), Msg::CreateOffer { voice_activity_detection, ice_restart }),
        ),
    }
}

/// Builds the command that creates a data channel with the given label.
pub fn create_data_channel(state: &State, pc_uuid: &String, label: String) -> (r: Result<
    (tokio::sync::mpsc::Sender<Msg>, Msg),
    SpecterError,
>)
    requires
        state.wf(),
    ensures
        match r {
            Ok(p) => state.has(pc_uuid@, ResourceKind::PeerConnectionSender) && p.1
                == Msg::CreateDataChannel(label),
            Err(e) => e == SpecterError::NotFound && !state.has(
                pc_uuid@,
                ResourceKind::PeerConnectionSender,
            ),
        },
{
    match state.get_peer_connection(pc_uuid) {
        None => Err(SpecterError::NotFound),
        Some(tx) => Ok((sender_clone(tx), Msg::CreateDataChannel(label))),
    }
}

/// Builds a payload-free query command for the connection; shared by every
/// description, statistics and state query.
pub fn query_command(state: &State, pc_uuid: &String, msg: Msg) -> (r: Result<
    (tokio::sync::mpsc::Sender<Msg>, Msg),
    SpecterError,
>)
    requires
        state.wf(),
    ensures
        match r {
            Ok(p) => state.has(pc_uuid@, ResourceKind::PeerConnectionSender) && p.1 == msg,
            Err(e) => e == SpecterError::NotFound && !state.has(
                pc_uuid@,
                ResourceKind::PeerConnectionSender,
            ),
        },
{
    match state.get_peer_connection(pc_uuid) {
        None => Err(SpecterError::NotFound),
        Some(tx) => Ok((sender_clone(tx), msg)),
    }
}

/// Builds the query for the current local description.
pub fn get_current_local_description(state: &State, pc_uuid: &String) -> (r: Result<
    (tokio::sync::mpsc::Sender<Msg>, Msg),
    SpecterError,
>)
    requires
        state.wf(),
    ensures
        match r {
            Ok(p) => state.has(pc_uuid@, ResourceKind::PeerConnectionSender) && p.1
                == Msg::GetCurrentLocalDescription,
            Err(e) => e == SpecterError::NotFound && !state.has(
                pc_uuid@,
                ResourceKind::PeerConnectionSender,
            ),
        },
{
    query_command(state, pc_uuid, Msg::GetCurrentLocalDescription)
}

/// Builds the query for the current remote description.
pub fn get_current_remote_description(state: &State, pc_uuid: &String) -> (r: Result<
    (tokio::sync::mpsc::Sender<Msg>, Msg),
    SpecterError,
>)
    requires
        state.wf(),
    ensures
        match r {
            Ok(p) => state.has(pc_uuid@, ResourceKind::PeerConnectionSender) && p.1
                == Msg::GetCurrentRemoteDescription,
            Err(e) => e == SpecterError::NotFound && !state.has(
                pc_uuid@,
                ResourceKind::PeerConnectionSender,
            ),
        },
{
    query_command(state, pc_uuid, Msg::GetCurrentRemoteDescription)
}

/// Builds the query for the local description, current or pending.
pub fn get_local_description(state: &State, pc_uuid: &String) -> (r: Result<
    (tokio::sync::mpsc::Sender<Msg>, Msg),
    SpecterError,
>)
    requires
        state.wf(),
    ensures
        match r {
            Ok(p) => state.has(pc_uuid@, ResourceKind::PeerConnectionSender) && p.1
                == Msg::GetLocalDescription,
            Err(e) => e == SpecterError::NotFound && !state.has(
                pc_uuid@,
                ResourceKind::PeerConnectionSender,
            ),
        },
{
    query_command(state, pc_uuid, Msg::GetLocalDescription)
}

/// Builds the query for the remote description, current or pending.
pub fn get_remote_description(state: &State, pc_uuid: &String) -> (r: Result<
    (tokio::sync::mpsc::Sender<Msg>, Msg),
    SpecterError,
>)
    requires
        state.wf(),
    ensures
        match r {
            Ok(p) => state.has(pc_uuid@, ResourceKind::PeerConnectionSender) && p.1
                == Msg::GetRemoteDescription,
            Err(e) => e == SpecterError::NotFound && !state.has(
                pc_uuid@,
                ResourceKind::PeerConnectionSender,
            ),
        },
{
    query_command(state, pc_uuid, Msg::GetRemoteDescription)
}

/// Builds the query for the pending local description.
pub fn get_pending_local_description(state: &State, pc_uuid: &String) -> (r: Result<
    (tokio::sync::mpsc::Sender<Msg>, Msg),
    SpecterError,
>)
    requires
        state.wf(),
    ensures
        match r {
            Ok(p) => state.has(pc_uuid@, ResourceKind::PeerConnectionSender) && p.1
                == Msg::GetPendingLocalDescription,
            Err(e) => e == SpecterError::NotFound && !state.has(
                pc_uuid@,
                ResourceKind::PeerConnectionSender,
            ),
        },
{
    query_command(state, pc_uuid, Msg::GetPendingLocalDescription)
}

/// Builds the query for the pending remote description.
pub fn get_pending_remote_description(state: &State, pc_uuid: &String) -> (r: Result<
    (tokio::sync::mpsc::Sender<Msg>, Msg),
    SpecterError,
>)
    requires
        state.wf(),
    ensures
        match r {
            Ok(p) => state.has(pc_uuid@, ResourceKind::PeerConnectionSender) && p.1
                == Msg::GetPendingRemoteDescription,
            Err(e) => e == SpecterError::NotFound && !state.has(
                pc_uuid@,
                ResourceKind::PeerConnectionSender,
            ),
        },
{
    query_command(state, pc_uuid, Msg::GetPendingRemoteDescription)
}

/// Builds the query for a statistics snapshot.
pub fn get_stats(state: &State, pc_uuid: &String) -> (r: Result<
    (tokio::sync::mpsc::Sender<Msg>, Msg),
    SpecterError,
>)
    requires
        state.wf(),
    ensures
        match r {
            Ok(p) => state.has(pc_uuid@, ResourceKind::PeerConnectionSender) && p.1
                == Msg::GetStats,
            Err(e) => e == SpecterError::NotFound && !state.has(
                pc_uuid@,
                ResourceKind::PeerConnectionSender,
            ),
        },
{
    query_command(state, pc_uuid, Msg::GetStats)
}

/// Builds the query for the ICE connection state.
pub fn ice_connection_state(state: &State, pc_uuid: &String) -> (r: Result<
    (tokio::sync::mpsc::Sender<Msg>, Msg),
    SpecterError,
>)
    requires
        state.wf(),
    ensures
        match r {
            Ok(p) => state.has(pc_uuid@, ResourceKind::PeerConnectionSender) && p.1
                == Msg::IceConnectionState,
            Err(e) => e == SpecterError::NotFound && !state.has(
                pc_uuid@,
                ResourceKind::PeerConnectionSender,
            ),
        },
{
    query_command(state, pc_uuid, Msg::IceConnectionState)
}

/// Builds the query for the ICE gathering state.
pub fn ice_gathering_state(state: &State, pc_uuid: &String) -> (r: Result<
    (tokio::sync::mpsc::Sender<Msg>, Msg),
    SpecterError,
>)
    requires
        state.wf(),
    ensures
        match r {
            Ok(p) => state.has(pc_uuid@, ResourceKind::PeerConnectionSender) && p.1
                == Msg::IceGatheringState,
            Err(e) => e == SpecterError::NotFound && !state.has(
                pc_uuid@,
                ResourceKind::PeerConnectionSender,
            ),
        },
{
    query_command(state, pc_uuid, Msg::IceGatheringState)
}

/// Builds the query for the signaling state.
pub fn signaling_state(state: &State, pc_uuid: &String) -> (r: Result<
    (tokio::sync::mpsc::Sender<Msg>, Msg),
    SpecterError,
>)
    requires
        state.wf(),
    ensures
        match r {
            Ok(p) => state.has(pc_uuid@, ResourceKind::PeerConnectionSender) && p.1
                == Msg::SignalingState,
            Err(e) => e == SpecterError::NotFound && !state.has(
                pc_uuid@,
                ResourceKind::PeerConnectionSender,
            ),
        },
{
    query_command(state, pc_uuid, Msg::SignalingState)
}

/// Builds the query for the peer-connection state.
pub fn connection_state(state: &State, pc_uuid: &String) -> (r: Result<
    (tokio::sync::mpsc::Sender<Msg>, Msg),
    SpecterError,
>)
    requires
        state.wf(),
    ensures
        match r {
            Ok(p) => state.has(pc_uuid@, ResourceKind::PeerConnectionSender) && p.1
                == Msg::ConnectionState,
            Err(e) => e == SpecterError::NotFound && !state.has(
                pc_uuid@,
                ResourceKind::PeerConnectionSender,
            ),
        },
{
    query_command(state, pc_uuid, Msg::ConnectionState)
}

} // verus!
