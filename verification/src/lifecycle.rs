//! The lifecycle of one peer connection, as the subscriber observes it:
//! building the connection either succeeds once or fails once, and a ready
//! connection is closed exactly once, when its drained mailbox ends the
//! actor's loop.
//!
//! The host's task drives [`lifecycle_step`] with what actually happened;
//! the trace lemmas below pin down every notification sequence the machine
//! can produce. That the run reaches a terminal phase at all is the
//! runtime's obligation — it follows from the loop being driven until the
//! mailbox ends — and is assumed by the terminal-phase clauses.

use vstd::prelude::*;

use crate::peer_connection::Event;

verus! {

/// The phase of one connection attempt.
#[derive(Clone, Copy, Debug, PartialEq, Eq, Structural)]
pub enum Phase {
    /// The engine is building the connection.
    Creating,
    /// The mailbox is registered and commands are being served.
    Ready,
    /// The engine could not build the connection; terminal.
    Failed,
    /// The drained mailbox ended the loop; terminal.
    Closed,
}

/// What the host's task observes.
#[derive(Clone, Copy, Debug, PartialEq, Eq, Structural)]
pub enum LifecycleInput {
    /// The engine built the connection and the mailbox was registered.
    BuildSucceeded,
    /// The engine could not build the connection.
    BuildFailed,
    /// One command was received and served.
    CommandHandled,
    /// The mailbox's senders are gone and the stream ended.
    MailboxEnded,
}

/// The lifecycle notifications, apart from the command acknowledgements.
#[derive(Clone, Copy, Debug, PartialEq, Eq, Structural)]
pub enum Notice {
    /// The connection is ready; emitted on leaving `Creating` upward.
    Ready,
    /// The connection could never be built; emitted on failing.
    ConnError,
    /// The connection is closed; emitted on leaving `Ready` for good.
    Closed,
}

/// The next phase after one observation.
pub open spec fn spec_step(p: Phase, input: LifecycleInput) -> Phase {
    match p {
        Phase::Creating => match input {
            LifecycleInput::BuildSucceeded => Phase::Ready,
            LifecycleInput::BuildFailed => Phase::Failed,
            _ => Phase::Creating,
        },
        Phase::Ready => match input {
            LifecycleInput::MailboxEnded => Phase::Closed,
            _ => Phase::Ready,
        },
        Phase::Failed => Phase::Failed,
        Phase::Closed => Phase::Closed,
    }
}

/// The notification one observation produces, if any.
pub open spec fn spec_emit(p: Phase, input: LifecycleInput) -> Option<Notice> {
    match p {
        Phase::Creating => match input {
            LifecycleInput::BuildSucceeded => Some(Notice::Ready),
            LifecycleInput::BuildFailed => Some(Notice::ConnError),
            _ => None,
        },
        Phase::Ready => match input {
            LifecycleInput::MailboxEnded => Some(Notice::Closed),
            _ => None,
        },
        _ => None,
    }
}

/// Advances the lifecycle by one observation and renders the notification
/// it owes the subscriber, carrying the connection id.
pub fn lifecycle_step(p: Phase, input: LifecycleInput, conn_id: &String) -> (r: (
    Phase,
    Option<Event>,
))
    ensures
        r.0 == spec_step(p, input),
        r.1 == match spec_emit(p, input) {
            Some(Notice::Ready) => Some(Event::PeerConnectionReady(*conn_id)),
            Some(Notice::ConnError) => Some(Event::PeerConnectionError(*conn_id)),
            Some(Notice::Closed) => Some(Event::PeerConnectionClosed(*conn_id)),
            None => None::<Event>,
        },
{
    match p {
        Phase::Creating => match input {
            LifecycleInput::BuildSucceeded => (
                Phase::Ready,
                Some(Event::PeerConnectionReady(conn_id.clone())),
            ),
            LifecycleInput::BuildFailed => (
                Phase::Failed,
                Some(Event::PeerConnectionError(conn_id.clone())),
            ),
            _ => (Phase::Creating, None),
        },
        Phase::Ready => match input {
            LifecycleInput::MailboxEnded => (
                Phase::Closed,
                Some(Event::PeerConnectionClosed(conn_id.clone())),
            ),
            _ => (Phase::Ready, None),
        },
        Phase::Failed => (Phase::Failed, None),
        Phase::Closed => (Phase::Closed, None),
    }
}

/// The phase after a whole run of observations.
pub open spec fn run(p: Phase, inputs: Seq<LifecycleInput>) -> Phase
    decreases inputs.len(),
{
    if inputs.len() == 0 {
        p
    } else {
        run(spec_step(p, inputs[0]), inputs.skip(1))
    }
}

/// Every notification a run emits, in order.
pub open spec fn notices(p: Phase, inputs: Seq<LifecycleInput>) -> Seq<Notice>
    decreases inputs.len(),
{
    if inputs.len() == 0 {
        Seq::empty()
    } else {
        let rest = notices(spec_step(p, inputs[0]), inputs.skip(1));
        match spec_emit(p, inputs[0]) {
            Some(n) => seq![n] + rest,
            None => rest,
        }
    }
}

/// How often a notification occurs in a sequence.
pub open spec fn notice_count(s: Seq<Notice>, n: Notice) -> nat
    decreases s.len(),
{
    if s.len() == 0 {
        0
    } else {
        (if s[0] == n {
            1nat
        } else {
            0nat
        }) + notice_count(s.skip(1), n)
    }
}

/// Which phases a run can end in: a ready connection only stays ready or
/// closes, and the terminal phases are absorbing.
pub proof fn lemma_phase_reachability(p: Phase, inputs: Seq<LifecycleInput>)
    ensures
        p == Phase::Ready ==> (run(p, inputs) == Phase::Ready || run(p, inputs) == Phase::Closed),
        p == Phase::Failed ==> run(p, inputs) == Phase::Failed,
        p == Phase::Closed ==> run(p, inputs) == Phase::Closed,
    decreases inputs.len(),
{
    if inputs.len() > 0 {
        lemma_phase_reachability(spec_step(p, inputs[0]), inputs.skip(1));
    }
}

/// The exact notification counts of any run, as a function of where the
/// run starts and ends: a ready notice appears exactly on the runs from
/// `Creating` that reach `Ready` or `Closed`, an error notice exactly on
/// those that reach `Failed`, and a closed notice exactly on the runs that
/// reach `Closed`.
pub proof fn lemma_notice_counts(p: Phase, inputs: Seq<LifecycleInput>)
    ensures
        notice_count(notices(p, inputs), Notice::Ready) == if p == Phase::Creating && (run(p, inputs)
            == Phase::Ready || run(p, inputs) == Phase::Closed) {
            1nat
        } else {
            0nat
        },
        notice_count(notices(p, inputs), Notice::ConnError) == if p == Phase::Creating && run(
            p,
            inputs,
        ) == Phase::Failed {
            1nat
        } else {
            0nat
        },
        notice_count(notices(p, inputs), Notice::Closed) == if (p == Phase::Creating || p
            == Phase::Ready) && run(p, inputs) == Phase::Closed {
            1nat
        } else {
            0nat
        },
    decreases inputs.len(),
{
    if inputs.len() == 0 {
    } else {
        let q = spec_step(p, inputs[0]);
        lemma_notice_counts(q, inputs.skip(1));
        lemma_phase_reachability(q, inputs.skip(1));
        let rest = notices(q, inputs.skip(1));
        match spec_emit(p, inputs[0]) {
            Some(n) => {
                assert((seq![n] + rest)[0] == n);
                assert((seq![n] + rest).skip(1) =~= rest);
            },
            None => {},
        }
    }
}

/// The exact notification sequence of any run, by starting phase: from a
/// terminal phase nothing is emitted; from `Ready` either nothing or the
/// one closed notice; from `Creating` the sequence is empty, ready alone,
/// ready then closed, or the error alone — each exactly when the run ends
/// in the matching phase.
pub proof fn lemma_notices_exact(p: Phase, inputs: Seq<LifecycleInput>)
    ensures
        p == Phase::Failed ==> notices(p, inputs) == Seq::<Notice>::empty(),
        p == Phase::Closed ==> notices(p, inputs) == Seq::<Notice>::empty(),
        p == Phase::Ready ==> notices(p, inputs) == (if run(p, inputs) == Phase::Closed {
            seq![Notice::Closed]
        } else {
            Seq::<Notice>::empty()
        }),
        p == Phase::Creating ==> notices(p, inputs) == (match run(p, inputs) {
            Phase::Creating => Seq::<Notice>::empty(),
            Phase::Ready => seq![Notice::Ready],
            Phase::Closed => seq![Notice::Ready, Notice::Closed],
            Phase::Failed => seq![Notice::ConnError],
        }),
    decreases inputs.len(),
{
    if inputs.len() == 0 {
        lemma_phase_reachability(p, inputs);
    } else {
        let q = spec_step(p, inputs[0]);
        let rest = notices(q, inputs.skip(1));
        lemma_notices_exact(q, inputs.skip(1));
        lemma_phase_reachability(q, inputs.skip(1));
        match spec_emit(p, inputs[0]) {
            Some(n) => {
                assert(notices(p, inputs) =~= seq![n] + rest);
                if p == Phase::Creating && n == Notice::Ready && run(q, inputs.skip(1))
                    == Phase::Closed {
                    assert(seq![Notice::Ready] + seq![Notice::Closed] =~= seq![
                        Notice::Ready,
                        Notice::Closed,
                    ]);
                }
                assert(seq![n] + Seq::<Notice>::empty() =~= seq![n]);
            },
            None => {},
        }
    }
}

/// The protocol every connection attempt keeps: a run from `Creating`
/// yields at most one of the ready and error notices and never both; a
/// closed notice comes only after a ready notice, and never twice. A run
/// that ends `Closed` has emitted exactly one ready and one closed notice;
/// one that ends `Failed` has emitted exactly one error notice and nothing
/// else.
pub proof fn lemma_connection_lifecycle(inputs: Seq<LifecycleInput>)
    ensures
        notice_count(notices(Phase::Creating, inputs), Notice::Ready) <= 1,
        notice_count(notices(Phase::Creating, inputs), Notice::ConnError) <= 1,
        notice_count(notices(Phase::Creating, inputs), Notice::Closed) <= 1,
        !(notice_count(notices(Phase::Creating, inputs), Notice::Ready) > 0 && notice_count(
            notices(Phase::Creating, inputs),
            Notice::ConnError,
        ) > 0),
        notice_count(notices(Phase::Creating, inputs), Notice::Closed) > 0 ==> notice_count(
            notices(Phase::Creating, inputs),
            Notice::Ready,
        ) == 1,
        run(Phase::Creating, inputs) == Phase::Closed ==> notice_count(
            notices(Phase::Creating, inputs),
            Notice::Ready,
        ) == 1 && notice_count(notices(Phase::Creating, inputs), Notice::Closed) == 1
            && notice_count(notices(Phase::Creating, inputs), Notice::ConnError) == 0,
        run(Phase::Creating, inputs) == Phase::Failed ==> notice_count(
            notices(Phase::Creating, inputs),
            Notice::ConnError,
        ) == 1 && notice_count(notices(Phase::Creating, inputs), Notice::Ready) == 0
            && notice_count(notices(Phase::Creating, inputs), Notice::Closed) == 0,
        notices(Phase::Creating, inputs) == Seq::<Notice>::empty() || notices(
            Phase::Creating,
            inputs,
        ) == seq![Notice::Ready] || notices(Phase::Creating, inputs) == seq![
            Notice::Ready,
            Notice::Closed,
        ] || notices(Phase::Creating, inputs) == seq![Notice::ConnError],
{
    lemma_notice_counts(Phase::Creating, inputs);
    lemma_notices_exact(Phase::Creating, inputs);
}

} // verus!
