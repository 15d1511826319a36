//! The per-connection actor's command dispatch: given a command and what
//! the engine returned for it, produce the one event owed to the
//! subscriber, and keep the actor's table of created senders.
//!
//! The host's loop owns the native handle, awaits the engine and converts
//! its raw result into an [`EngineOutcome`]; everything decided after that
//! point is verified here, for every value the engine can return.

use vstd::prelude::*;

use std::sync::Arc;

use crate::peer_conn_state::spec_connection_state;
use crate::peer_conn_state::spec_ice_connection_state;
use crate::peer_conn_state::spec_ice_gathering_state;
use crate::peer_conn_state::spec_signaling_state;
use crate::peer_conn_state::ConnectionState;
use crate::peer_conn_state::IceConnectionState;
use crate::peer_conn_state::IceGatheringState;
use crate::peer_conn_state::SignalingState;
use crate::peer_connection::DescriptionKind;
use crate::peer_connection::Event;
use crate::peer_connection::Msg;
use crate::peer_connection::OpTag;
use crate::util::gen_uuid;

verus! {

/// What the engine returned for one command, reduced to plain values: unit
/// success, an error message, a serialized payload, an optional serialized
/// description, a created sender's handle, or a state code.
pub enum EngineOutcome {
    /// The operation succeeded with no payload.
    Applied,
    /// The engine rejected the operation; its message.
    Failed(String),
    /// A serialized session description produced by the engine.
    Sdp(String),
    /// A queried description, serialized, or explicitly absent.
    MaybeDescription(Option<String>),
    /// A serialized statistics snapshot.
    StatsJson(String),
    /// The sender created for an attached track.
    SenderHandle(Arc<webrtc::rtp_transceiver::rtp_sender::RTCRtpSender>),
    /// A state query's result, as the state's code.
    StateCode(u8),
}

/// The event owed for a command and its engine outcome, for every command
/// but track attachment, which also allocates a fresh sender id and is
/// specified directly on [`Actor::handle`]. A pairing the engine can never
/// produce yields no event.
pub open spec fn event_for(conn_id: String, cmd: Msg, out: EngineOutcome) -> Option<Event> {
    match cmd {
        Msg::AddIceCandidate(_) => match out {
            EngineOutcome::Applied => Some(Event::CommandOk(conn_id, OpTag::AddIceCandidate)),
            EngineOutcome::Failed(d) => Some(Event::CandidateError(conn_id, d)),
            _ => None,
        },
        Msg::AddTrack(_, _) => None,
        Msg::CreateAnswer { .. } => match out {
            EngineOutcome::Sdp(j) => Some(Event::Answer(conn_id, j)),
            EngineOutcome::Failed(d) => Some(Event::AnswerError(conn_id, d)),
            _ => None,
        },
        Msg::CreateDataChannel(_) => match out {
            EngineOutcome::Applied => Some(Event::DataChannelCreated(conn_id)),
            EngineOutcome::Failed(d) => Some(Event::OfferError(conn_id, d)),
            _ => None,
        },
        Msg::CreateOffer { .. } => match out {
            EngineOutcome::Sdp(j) => Some(Event::Offer(conn_id, j)),
            EngineOutcome::Failed(d) => Some(Event::OfferError(conn_id, d)),
            _ => None,
        },
        Msg::GetCurrentLocalDescription => match out {
            EngineOutcome::MaybeDescription(o) => Some(
                Event::Description(conn_id, DescriptionKind::CurrentLocal, o),
            ),
            _ => None,
        },
        Msg::GetCurrentRemoteDescription => match out {
            EngineOutcome::MaybeDescription(o) => Some(
                Event::Description(conn_id, DescriptionKind::CurrentRemote, o),
            ),
            _ => None,
        },
        Msg::GetLocalDescription => match out {
            EngineOutcome::MaybeDescription(o) => Some(
                Event::Description(conn_id, DescriptionKind::Local, o),
            ),
            _ => None,
        },
        Msg::GetPendingLocalDescription => match out {
            EngineOutcome::MaybeDescription(o) => Some(
                Event::Description(conn_id, DescriptionKind::PendingLocal, o),
            ),
            _ => None,
        },
        Msg::GetPendingRemoteDescription => match out {
            EngineOutcome::MaybeDescription(o) => Some(
                Event::Description(conn_id, DescriptionKind::PendingRemote, o),
            ),
            _ => None,
        },
        Msg::GetRemoteDescription => match out {
            EngineOutcome::MaybeDescription(o) => Some(
                Event::Description(conn_id, DescriptionKind::Remote, o),
            ),
            _ => None,
        },
        Msg::GetStats => match out {
            EngineOutcome::StatsJson(j) => Some(Event::Stats(conn_id, j)),
            _ => None,
        },
        Msg::SetLocalDescription(_) => match out {
            EngineOutcome::Applied => Some(Event::CommandOk(conn_id, OpTag::SetLocalDescription)),
            EngineOutcome::Failed(d) => Some(Event::InvalidLocalDescription(conn_id, d)),
            _ => None,
        },
        Msg::SetRemoteDescription(_) => match out {
            EngineOutcome::Applied => Some(Event::CommandOk(conn_id, OpTag::SetRemoteDescription)),
            EngineOutcome::Failed(d) => Some(Event::InvalidRemoteDescription(conn_id, d)),
            _ => None,
        },
        Msg::IceConnectionState => match out {
            EngineOutcome::StateCode(c) => Some(
                Event::IceConnectionState(conn_id, spec_ice_connection_state(c)),
            ),
            _ => None,
        },
        Msg::IceGatheringState => match out {
            EngineOutcome::StateCode(c) => Some(
                Event::IceGatheringState(conn_id, spec_ice_gathering_state(c)),
            ),
            _ => None,
        },
        Msg::SignalingState => match out {
            EngineOutcome::StateCode(c) => Some(
                Event::SignalingState(conn_id, spec_signaling_state(c)),
            ),
            _ => None,
        },
        Msg::ConnectionState => match out {
            EngineOutcome::StateCode(c) => Some(
                Event::ConnectionState(conn_id, spec_connection_state(c)),
            ),
            _ => None,
        },
    }
}

/// Sequential ICE-candidate commands are acknowledged in submission order:
/// each pairs with exactly one event — a success tag or the engine's
/// candidate error — so a batch of N candidate commands processed through
/// [`Actor::handle_batch`] yields N events whose i-th element acknowledges
/// the i-th submitted candidate.
pub proof fn lemma_candidate_outcomes_ordered(
    conn_id: String,
    cmds: Seq<Msg>,
    outs: Seq<EngineOutcome>,
)
    requires
        cmds.len() == outs.len(),
        forall|i: int| 0 <= i < cmds.len() ==> (#[trigger] cmds[i] matches Msg::AddIceCandidate(_)),
        forall|i: int|
            0 <= i < outs.len() ==> ((#[trigger] outs[i] matches EngineOutcome::Applied) || (
            outs[i] matches EngineOutcome::Failed(_))),
    ensures
        forall|i: int|
            0 <= i < cmds.len() ==> #[trigger] event_for(conn_id, cmds[i], outs[i]) == (
            match outs[i] {
                EngineOutcome::Applied => Some(Event::CommandOk(conn_id, OpTag::AddIceCandidate)),
                EngineOutcome::Failed(d) => Some(Event::CandidateError(conn_id, d)),
                _ => None,
            }),
        forall|i: int|
            0 <= i < cmds.len() ==> event_for(conn_id, #[trigger] cmds[i], outs[i]).is_some(),
{
}

/// The per-connection actor's own state: the connection id it reports in
/// every event, and the senders created for attached tracks, kept so their
/// handles stay alive for the connection's lifetime.
pub struct Actor {
    conn_id: String,
    senders: Vec<(String, Arc<webrtc::rtp_transceiver::rtp_sender::RTCRtpSender>)>,
}

impl Actor {
    /// The connection id this actor reports.
    pub closed spec fn cid(self) -> String {
        self.conn_id
    }

    /// The sender table: generated sender id and handle, in creation order.
    pub closed spec fn senders_view(self) -> Seq<
        (String, Arc<webrtc::rtp_transceiver::rtp_sender::RTCRtpSender>),
    > {
        self.senders@
    }

    /// An actor for a freshly built connection, with no senders yet.
    pub fn new(conn_id: String) -> (a: Actor)
        ensures
            a.cid() == conn_id,
            a.senders_view() == Seq::<
                (String, Arc<webrtc::rtp_transceiver::rtp_sender::RTCRtpSender>),
            >::empty(),
    {
        let a = Actor { conn_id, senders: Vec::new() };
        proof {
            assert(a.senders_view() =~= Seq::<
                (String, Arc<webrtc::rtp_transceiver::rtp_sender::RTCRtpSender>),
            >::empty());
        }
        a
    }

    /// Turns one processed command and its engine outcome into the event
    /// owed to the subscriber. Exactly the pairings of the protocol table
    /// produce an event; a failed track attachment produces none, and the
    /// loop goes on. Attaching a track also records the created sender
    /// under a fresh id.
    pub fn handle(&mut self, cmd: &Msg, out: EngineOutcome) -> (ev: Option<Event>)
        ensures
            final(self).cid() == old(self).cid(),
            match *cmd {
                Msg::AddTrack(_, _) => true,
                _ => *final(self) == *old(self) && ev == event_for(old(self).cid(), *cmd, out),
            },
            (match *cmd {
                Msg::AddTrack(tid, _) => match out {
                    EngineOutcome::SenderHandle(s) => exists|u: String|
                        #![auto]
                        u@.len() == 36 && ev == Some(
                            Event::RtpSender(old(self).cid(), tid, u),
                        ) && final(self).senders_view() == old(self).senders_view().push((u, s)),
                    _ => ev == None::<Event> && *final(self) == *old(self),
                },
                _ => true,
            }),
    {
        match cmd {
            Msg::AddTrack(track_uuid, _handle) => match out {
                EngineOutcome::SenderHandle(s) => {
                    let sender_uuid = gen_uuid();
                    self.senders.push((sender_uuid.clone(), s));
                    let ev = Event::RtpSender(
                        self.conn_id.clone(),
                        track_uuid.clone(),
                        sender_uuid,
                    );
                    Some(ev)
                },
                _ => None,
            },
            Msg::AddIceCandidate(_) => match out {
                EngineOutcome::Applied => Some(
                    Event::CommandOk(self.conn_id.clone(), OpTag::AddIceCandidate),
                ),
                EngineOutcome::Failed(d) => Some(
                    Event::CandidateError(self.conn_id.clone(), d),
                ),
                _ => None,
            },
            Msg::CreateAnswer { .. } => match out {
                EngineOutcome::Sdp(j) => Some(Event::Answer(self.conn_id.clone(), j)),
                EngineOutcome::Failed(d) => Some(Event::AnswerError(self.conn_id.clone(), d)),
                _ => None,
            },
            Msg::CreateDataChannel(_) => match out {
                EngineOutcome::Applied => Some(Event::DataChannelCreated(self.conn_id.clone())),
                EngineOutcome::Failed(d) => Some(Event::OfferError(self.conn_id.clone(), d)),
                _ => None,
            },
            Msg::CreateOffer { .. } => match out {
                EngineOutcome::Sdp(j) => Some(Event::Offer(self.conn_id.clone(), j)),
                EngineOutcome::Failed(d) => Some(Event::OfferError(self.conn_id.clone(), d)),
                _ => None,
            },
            Msg::GetCurrentLocalDescription => match out {
                EngineOutcome::MaybeDescription(o) => Some(
                    Event::Description(self.conn_id.clone(), DescriptionKind::CurrentLocal, o),
                ),
                _ => None,
            },
            Msg::GetCurrentRemoteDescription => match out {
                EngineOutcome::MaybeDescription(o) => Some(
                    Event::Description(self.conn_id.clone(), DescriptionKind::CurrentRemote, o),
                ),
                _ => None,
            },
            Msg::GetLocalDescription => match out {
                EngineOutcome::MaybeDescription(o) => Some(
                    Event::Description(self.conn_id.clone(), DescriptionKind::Local, o),
                ),
                _ => None,
            },
            Msg::GetPendingLocalDescription => match out {
                EngineOutcome::MaybeDescription(o) => Some(
                    Event::Description(self.conn_id.clone(), DescriptionKind::PendingLocal, o),
                ),
                _ => None,
            },
            Msg::GetPendingRemoteDescription => match out {
                EngineOutcome::MaybeDescription(o) => Some(
                    Event::Description(self.conn_id.clone(), DescriptionKind::PendingRemote, o),
                ),
                _ => None,
            },
            Msg::GetRemoteDescription => match out {
                EngineOutcome::MaybeDescription(o) => Some(
                    Event::Description(self.conn_id.clone(), DescriptionKind::Remote, o),
                ),
                _ => None,
            },
            Msg::GetStats => match out {
                EngineOutcome::StatsJson(j) => Some(Event::Stats(self.conn_id.clone(), j)),
                _ => None,
            },
            Msg::SetLocalDescription(_) => match out {
                EngineOutcome::Applied => Some(
                    Event::CommandOk(self.conn_id.clone(), OpTag::SetLocalDescription),
                ),
                EngineOutcome::Failed(d) => Some(
                    Event::InvalidLocalDescription(self.conn_id.clone(), d),
                ),
                _ => None,
            },
            Msg::SetRemoteDescription(_) => match out {
                EngineOutcome::Applied => Some(
                    Event::CommandOk(self.conn_id.clone(), OpTag::SetRemoteDescription),
                ),
                EngineOutcome::Failed(d) => Some(
                    Event::InvalidRemoteDescription(self.conn_id.clone(), d),
                ),
                _ => None,
            },
            Msg::IceConnectionState => match out {
                EngineOutcome::StateCode(c) => Some(
                    Event::IceConnectionState(
                        self.conn_id.clone(),
                        IceConnectionState::from_code(c),
                    ),
                ),
                _ => None,
            },
            Msg::IceGatheringState => match out {
                EngineOutcome::StateCode(c) => Some(
                    Event::IceGatheringState(
                        self.conn_id.clone(),
                        IceGatheringState::from_code(c),
                    ),
                ),
                _ => None,
            },
            Msg::SignalingState => match out {
                EngineOutcome::StateCode(c) => Some(
                    Event::SignalingState(self.conn_id.clone(), SignalingState::from_code(c)),
                ),
                _ => None,
            },
            Msg::ConnectionState => match out {
                EngineOutcome::StateCode(c) => Some(
                    Event::ConnectionState(self.conn_id.clone(), ConnectionState::from_code(c)),
                ),
                _ => None,
            },
        }
    }

    /// Processes a batch of commands against their outcomes, in mailbox
    /// order: one event per command, and the i-th event is the outcome of
    /// the i-th command — the order of the acknowledgements is the order of
    /// submission.
    pub fn handle_batch(&mut self, cmds: &Vec<Msg>, outs: Vec<EngineOutcome>) -> (evs: Vec<Event>)
        requires
            cmds@.len() == outs@.len(),
            forall|i: int|
                0 <= i < cmds@.len() ==> event_for(
                    old(self).cid(),
                    #[trigger] cmds@[i],
                    outs@[i],
                ).is_some(),
        ensures
            *final(self) == *old(self),
            evs@.len() == cmds@.len(),
            forall|i: int|
                0 <= i < cmds@.len() ==> #[trigger] evs@[i] == event_for(
                    old(self).cid(),
                    cmds@[i],
                    outs@[i],
                ).unwrap(),
    {
        let ghost all_outs = outs@;
        let mut outs = outs;
        let mut evs: Vec<Event> = Vec::new();
        let mut k: usize = 0;
        while k < cmds.len()
            invariant
                k <= cmds@.len(),
                cmds@.len() == all_outs.len(),
                outs@ =~= all_outs.skip(k as int),
                *self == *old(self),
                forall|i: int|
                    0 <= i < cmds@.len() ==> event_for(
                        old(self).cid(),
                        #[trigger] cmds@[i],
                        all_outs[i],
                    ).is_some(),
                evs@.len() == k,
                forall|i: int|
                    0 <= i < k ==> #[trigger] evs@[i] == event_for(
                        old(self).cid(),
                        cmds@[i],
                        all_outs[i],
                    ).unwrap(),
            decreases cmds@.len() - k,
        {
            let out = outs.remove(0);
            proof {
                assert(out == all_outs[k as int]);
                assert(!(cmds@[k as int] matches Msg::AddTrack(_, _)));
            }
            let ev = self.handle(&cmds[k], out);
            match ev {
                Some(e) => {
                    evs.push(e);
                },
                None => {
                    proof {
                        assert(false);
                    }
                },
            }
            proof {
                assert(outs@ =~= all_outs.skip(k + 1int));
            }
            k = k + 1;
        }
        evs
    }
}

} // verus!
