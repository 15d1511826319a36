//! Trusted boundary to the transport engine and its payload formats.
//!
//! Everything here either declares an outside type so that it can be held
//! and passed through, or wraps a single synchronous outside call behind a
//! contract. Nothing else in the crate is taken on trust.

use vstd::prelude::*;

use crate::codec_capability::RtpCodecCapability;

verus! {

#[verifier::external_type_specification]
#[verifier::external_body]
pub struct ExMediaEngine(webrtc::api::media_engine::MediaEngine);

#[verifier::external_type_specification]
#[verifier::external_body]
pub struct ExInterceptorRegistry(webrtc::interceptor::registry::Registry);

#[verifier::external_type_specification]
#[verifier::external_body]
pub struct ExApi(webrtc::api::API);

#[verifier::external_type_specification]
#[verifier::external_body]
pub struct ExApiBuilder(webrtc::api::APIBuilder);

#[verifier::external_type_specification]
#[verifier::external_body]
pub struct ExWebrtcError(webrtc::Error);

#[verifier::external_type_specification]
#[verifier::external_body]
pub struct ExSessionDescription(webrtc::peer_connection::sdp::session_description::RTCSessionDescription);

#[verifier::external_type_specification]
#[verifier::external_body]
pub struct ExIceCandidateInit(webrtc::ice_transport::ice_candidate::RTCIceCandidateInit);

#[verifier::external_type_specification]
#[verifier::external_body]
pub struct ExRtpSender(webrtc::rtp_transceiver::rtp_sender::RTCRtpSender);

#[verifier::external_type_specification]
#[verifier::external_body]
pub struct ExTrackLocalStaticSample(
    webrtc::track::track_local::track_local_static_sample::TrackLocalStaticSample,
);

#[verifier::external_type_specification]
#[verifier::external_body]
pub struct ExSerdeJsonError(serde_json::Error);

#[verifier::external_type_specification]
#[verifier::external_body]
#[verifier::reject_recursive_types(T)]
pub struct ExTokioSender<T>(tokio::sync::mpsc::Sender<T>);

/// Whether the JSON parser accepts a string as a session description; a
/// function of the string alone.
pub uninterp spec fn session_description_accepted(s: Seq<char>) -> bool;

/// Whether the JSON parser accepts a string as an ICE candidate; a function
/// of the string alone.
pub uninterp spec fn ice_candidate_accepted(s: Seq<char>) -> bool;

/// Relies on serde_json::from_str for the engine's session description type:
/// deserialization is deterministic, so acceptance depends on the string
/// alone.
#[verifier::external_body]
pub(crate) fn parse_session_description(s: &str) -> (r: Result<
    webrtc::peer_connection::sdp::session_description::RTCSessionDescription,
    serde_json::Error,
>)
    ensures
        r.is_ok() == session_description_accepted(s@),
{
    serde_json::from_str(s)
}

/// Relies on serde_json::from_str for the engine's ICE candidate type:
/// deserialization is deterministic, so acceptance depends on the string
/// alone.
#[verifier::external_body]
pub(crate) fn parse_ice_candidate(s: &str) -> (r: Result<
    webrtc::ice_transport::ice_candidate::RTCIceCandidateInit,
    serde_json::Error,
>)
    ensures
        r.is_ok() == ice_candidate_accepted(s@),
{
    serde_json::from_str(s)
}

/// Relies on MediaEngine::default: builds an engine with no codecs
/// registered yet.
#[verifier::external_body]
pub(crate) fn media_engine_default() -> webrtc::api::media_engine::MediaEngine {
    webrtc::api::media_engine::MediaEngine::default()
}

/// Relies on MediaEngine::register_default_codecs: registers the engine's
/// default codec set, reporting the engine's own error on failure.
#[verifier::external_body]
pub(crate) fn register_default_codecs(m: &mut webrtc::api::media_engine::MediaEngine) -> Result<
    (),
    webrtc::Error,
> {
    m.register_default_codecs()
}

/// Relies on Registry::new: builds an interceptor registry with no
/// interceptors.
#[verifier::external_body]
pub(crate) fn interceptor_registry_new() -> webrtc::interceptor::registry::Registry {
    webrtc::interceptor::registry::Registry::new()
}

/// Relies on register_default_interceptors: wires the default interceptors
/// against a still-owned media engine, consuming and returning the registry.
#[verifier::external_body]
pub(crate) fn register_default_interceptors(
    registry: webrtc::interceptor::registry::Registry,
    media_engine: &mut webrtc::api::media_engine::MediaEngine,
) -> Result<webrtc::interceptor::registry::Registry, webrtc::Error> {
    webrtc::api::interceptor_registry::register_default_interceptors(registry, media_engine)
}

/// Relies on APIBuilder::new: starts an API builder with empty slots.
#[verifier::external_body]
pub(crate) fn api_builder_new() -> webrtc::api::APIBuilder {
    webrtc::api::APIBuilder::new()
}

/// Relies on APIBuilder::with_media_engine: stores the engine in the
/// builder, consuming it.
#[verifier::external_body]
pub(crate) fn api_builder_with_media_engine(
    builder: webrtc::api::APIBuilder,
    media_engine: webrtc::api::media_engine::MediaEngine,
) -> webrtc::api::APIBuilder {
    builder.with_media_engine(media_engine)
}

/// Relies on APIBuilder::with_interceptor_registry: stores the interceptor
/// registry in the builder, consuming it.
#[verifier::external_body]
pub(crate) fn api_builder_with_interceptor_registry(
    builder: webrtc::api::APIBuilder,
    registry: webrtc::interceptor::registry::Registry,
) -> webrtc::api::APIBuilder {
    builder.with_interceptor_registry(registry)
}

/// Relies on APIBuilder::build: turns the builder into an immutable API
/// factory.
#[verifier::external_body]
pub(crate) fn api_build(builder: webrtc::api::APIBuilder) -> webrtc::api::API {
    builder.build()
}

/// Relies on TrackLocalStaticSample::new: builds a local track from the
/// given codec fields, id and stream id. The engine's remaining codec
/// fields are left at their defaults, as the host's capability carries no
/// values for them.
#[verifier::external_body]
pub(crate) fn new_track_local_static_sample(
    codec: &RtpCodecCapability,
    id: String,
    stream_id: String,
) -> webrtc::track::track_local::track_local_static_sample::TrackLocalStaticSample {
    let capability = webrtc::rtp_transceiver::rtp_codec::RTCRtpCodecCapability {
        mime_type: codec.mime_type.clone(),
        clock_rate: codec.clock_rate,
        channels: codec.channels,
        sdp_fmtp_line: codec.sdp_fmtp_line.clone(),
        rtcp_feedback: vec![],
    };
    webrtc::track::track_local::track_local_static_sample::TrackLocalStaticSample::new(
        capability, id, stream_id,
    )
}

/// Relies on Arc::clone: the clone refers to the same underlying value.
#[verifier::external_body]
pub(crate) fn arc_clone<T>(a: &std::sync::Arc<T>) -> (r: std::sync::Arc<T>)
    ensures
        r == a,
{
    std::sync::Arc::clone(a)
}

/// Relies on tokio's mpsc Sender::clone: the clone feeds the same channel.
#[verifier::external_body]
pub(crate) fn sender_clone<T>(tx: &tokio::sync::mpsc::Sender<T>) -> tokio::sync::mpsc::Sender<T> {
    tx.clone()
}

} // verus!
