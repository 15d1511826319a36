use vstd::prelude::*;

verus! {

/// Codec parameters handed in by the host when creating a local track.
///
/// Mirrors the fields the transport engine reads when it builds its own
/// codec capability; the remaining engine fields are left at their defaults.
#[derive(Clone, Debug)]
pub struct RtpCodecCapability {
    pub mime_type: String,
    pub clock_rate: u32,
    pub channels: u16,
    pub sdp_fmtp_line: String,
}

} // verus!
