use vstd::prelude::*;

verus! {

/// Abstract ICE connection states reported to the subscriber.
#[derive(Clone, Copy, Debug, PartialEq, Eq, Structural)]
pub enum IceConnectionState {
    Checking,
    Closed,
    Completed,
    Connected,
    Disconnected,
    Failed,
    New,
    Unspecified,
}

/// Abstract ICE gathering states reported to the subscriber.
#[derive(Clone, Copy, Debug, PartialEq, Eq, Structural)]
pub enum IceGatheringState {
    Complete,
    Gathering,
    New,
    Unspecified,
}

/// Abstract signaling states reported to the subscriber.
#[derive(Clone, Copy, Debug, PartialEq, Eq, Structural)]
pub enum SignalingState {
    Closed,
    HaveLocalOffer,
    HaveLocalPranswer,
    HaveRemoteOffer,
    HaveRemotePranswer,
    Stable,
    Unspecified,
}

/// Abstract peer-connection states reported to the subscriber.
#[derive(Clone, Copy, Debug, PartialEq, Eq, Structural)]
pub enum ConnectionState {
    Closed,
    Connected,
    Connecting,
    Disconnected,
    Failed,
    New,
    Unspecified,
}

/// The code each native ICE connection state carries, in the engine's
/// declaration order: unspecified, new, checking, connected, completed,
/// disconnected, failed, closed.
pub open spec fn spec_ice_connection_state(code: u8) -> IceConnectionState {
    if code == 1 {
        IceConnectionState::New
    } else if code == 2 {
        IceConnectionState::Checking
    } else if code == 3 {
        IceConnectionState::Connected
    } else if code == 4 {
        IceConnectionState::Completed
    } else if code == 5 {
        IceConnectionState::Disconnected
    } else if code == 6 {
        IceConnectionState::Failed
    } else if code == 7 {
        IceConnectionState::Closed
    } else {
        IceConnectionState::Unspecified
    }
}

impl IceConnectionState {
    /// Maps a native ICE connection state, given by its code, to the
    /// abstract state; unknown codes map to `Unspecified`.
    pub fn from_code(code: u8) -> (s: IceConnectionState)
        ensures
            s == spec_ice_connection_state(code),
    {
        match code {
            1 => IceConnectionState::New,
            2 => IceConnectionState::Checking,
            3 => IceConnectionState::Connected,
            4 => IceConnectionState::Completed,
            5 => IceConnectionState::Disconnected,
            6 => IceConnectionState::Failed,
            7 => IceConnectionState::Closed,
            _ => IceConnectionState::Unspecified,
        }
    }
}

/// The code each native ICE gathering state carries, in the engine's
/// declaration order: unspecified, new, gathering, complete.
pub open spec fn spec_ice_gathering_state(code: u8) -> IceGatheringState {
    if code == 1 {
        IceGatheringState::New
    } else if code == 2 {
        IceGatheringState::Gathering
    } else if code == 3 {
        IceGatheringState::Complete
    } else {
        IceGatheringState::Unspecified
    }
}

impl IceGatheringState {
    /// Maps a native ICE gathering state, given by its code, to the abstract
    /// state; unknown codes map to `Unspecified`.
    pub fn from_code(code: u8) -> (s: IceGatheringState)
        ensures
            s == spec_ice_gathering_state(code),
    {
        match code {
            1 => IceGatheringState::New,
            2 => IceGatheringState::Gathering,
            3 => IceGatheringState::Complete,
            _ => IceGatheringState::Unspecified,
        }
    }
}

/// The code each native signaling state carries, in the engine's declaration
/// order: unspecified, stable, have-local-offer, have-remote-offer,
/// have-local-pranswer, have-remote-pranswer, closed.
pub open spec fn spec_signaling_state(code: u8) -> SignalingState {
    if code == 1 {
        SignalingState::Stable
    } else if code == 2 {
        SignalingState::HaveLocalOffer
    } else if code == 3 {
        SignalingState::HaveRemoteOffer
    } else if code == 4 {
        SignalingState::HaveLocalPranswer
    } else if code == 5 {
        SignalingState::HaveRemotePranswer
    } else if code == 6 {
        SignalingState::Closed
    } else {
        SignalingState::Unspecified
    }
}

impl SignalingState {
    /// Maps a native signaling state, given by its code, to the abstract
    /// state; unknown codes map to `Unspecified`.
    pub fn from_code(code: u8) -> (s: SignalingState)
        ensures
            s == spec_signaling_state(code),
    {
        match code {
            1 => SignalingState::Stable,
            2 => SignalingState::HaveLocalOffer,
            3 => SignalingState::HaveRemoteOffer,
            4 => SignalingState::HaveLocalPranswer,
            5 => SignalingState::HaveRemotePranswer,
            6 => SignalingState::Closed,
            _ => SignalingState::Unspecified,
        }
    }
}

/// The code each native peer-connection state carries, in the engine's
/// declaration order: unspecified, new, connecting, connected, disconnected,
/// failed, closed.
pub open spec fn spec_connection_state(code: u8) -> ConnectionState {
    if code == 1 {
        ConnectionState::New
    } else if code == 2 {
        ConnectionState::Connecting
    } else if code == 3 {
        ConnectionState::Connected
    } else if code == 4 {
        ConnectionState::Disconnected
    } else if code == 5 {
        ConnectionState::Failed
    } else if code == 6 {
        ConnectionState::Closed
    } else {
        ConnectionState::Unspecified
    }
}

impl ConnectionState {
    /// Maps a native peer-connection state, given by its code, to the
    /// abstract state; unknown codes map to `Unspecified`.
    pub fn from_code(code: u8) -> (s: ConnectionState)
        ensures
            s == spec_connection_state(code),
    {
        match code {
            1 => ConnectionState::New,
            2 => ConnectionState::Connecting,
            3 => ConnectionState::Connected,
            4 => ConnectionState::Disconnected,
            5 => ConnectionState::Failed,
            6 => ConnectionState::Closed,
            _ => ConnectionState::Unspecified,
        }
    }
}

} // verus!
