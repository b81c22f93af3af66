//! The broadcast cell and the per-connection session protocol.
//!
//! A [`BroadcastCell`] holds the latest change signal together with a version
//! counter that only ever grows. Each websocket connection is a [`Session`]
//! that remembers the last version it has seen and asks for one reload
//! message whenever it observes a newer one. Sockets, tasks and timers are
//! left to the host: it reports what happened as a [`SessionEvent`] and
//! carries out the [`SessionAction`] it gets back.

use vstd::prelude::*;
use crate::asset_tracker::ReloadEvent;

verus! {

/// The payload of the text message that tells a client to fetch the page
/// again. No other message is ever sent.
pub const RELOAD_MESSAGE: &'static str = "reload";

/// The path of the URL on which clients open their websocket.
pub const NOTIFY_PATH: &'static str = "/notifyreload";

/// What a [`BroadcastCell`] stands for: the latest signal and how many
/// signals have been published into the cell so far.
pub struct BroadcastCellView {
    pub value: ReloadEvent,
    pub version: nat,
}

/// A single slot that always holds the most recent change signal.
///
/// There is one writer, the change aggregator, and any number of readers.
#[derive(Clone, Copy, Debug)]
pub struct BroadcastCell {
    value: ReloadEvent,
    version: u64,
}

impl View for BroadcastCell {
    type V = BroadcastCellView;

    closed spec fn view(&self) -> BroadcastCellView {
        BroadcastCellView { value: self.value, version: self.version as nat }
    }
}

impl BroadcastCell {
    /// A fresh cell at version zero, holding `initial`.
    pub fn new(initial: ReloadEvent) -> (cell: Self)
        ensures
            cell@ == (BroadcastCellView { value: initial, version: 0 }),
    {
        BroadcastCell { value: initial, version: 0 }
    }

    /// The number of signals published so far.
    pub fn version(&self) -> (v: u64)
        ensures
            v == self@.version,
    {
        self.version
    }

    /// The signal most recently published.
    pub fn value(&self) -> (e: ReloadEvent)
        ensures
            e == self@.value,
    {
        self.value
    }
}

/// One step of the change aggregator: stores `event` as the latest signal and
/// advances the version by exactly one, so that every reader whose last seen
/// version is older can tell that something happened.
pub fn broadcast_asset_change(cell: &mut BroadcastCell, event: ReloadEvent)
    requires
        old(cell)@.version < u64::MAX,
    ensures
        final(cell)@ == (BroadcastCellView { value: event, version: old(cell)@.version + 1 }),
{
    cell.value = event;
    cell.version = cell.version + 1;
}

/// Where a session stands in its life.
#[derive(Clone, Copy, Debug, PartialEq, Eq, Structural)]
pub enum SessionState {
    /// The handshake is complete and the baseline version is captured.
    Upgraded,
    /// The sender and the receiver loop are running.
    Streaming,
    /// One loop has ended; the other one is being cancelled.
    Closing,
    /// Both loops are done.
    Closed,
}

/// A frame sent by the client. Only a close frame means anything here.
#[derive(Clone, Copy, Debug, PartialEq, Eq, Structural)]
pub enum Frame {
    Close,
    Other,
}

/// One of the two loops of a streaming session.
#[derive(Clone, Copy, Debug, PartialEq, Eq, Structural)]
pub enum LoopHalf {
    Sender,
    Receiver,
}

/// What the host reports to a session.
#[derive(Clone, Copy, Debug, PartialEq, Eq, Structural)]
pub enum SessionEvent {
    /// Both loops have been started.
    Started,
    /// The sender loop woke up and read the cell at this version.
    Changed(u64),
    /// A reload message was delivered.
    Sent,
    /// A reload message could not be delivered.
    SendFailed,
    /// The sender loop can no longer wait on the cell: its writer is gone.
    BroadcastClosed,
    /// The receiver loop read a frame from the client.
    Received(Frame),
    /// The receiver loop reached the end of the client's stream, or an error.
    ReceiveEnded,
    /// The loop that was still running has been cancelled.
    Cancelled,
}

/// What a session asks the host to do.
#[derive(Clone, Copy, Debug, PartialEq, Eq, Structural)]
pub enum SessionAction {
    /// Nothing; keep waiting.
    Idle,
    /// Send one reload message to the client.
    SendReload,
    /// Cancel the named loop; the other one has ended.
    Cancel(LoopHalf),
    /// Release the socket and the task handles.
    Release,
}

/// What a [`Session`] stands for.
pub struct SessionView {
    pub id: u32,
    pub state: SessionState,
    pub seen: nat,
}

/// One live websocket connection.
#[derive(Clone, Copy, Debug)]
pub struct Session {
    id: u32,
    state: SessionState,
    seen: u64,
}

impl View for Session {
    type V = SessionView;

    closed spec fn view(&self) -> SessionView {
        SessionView { id: self.id, state: self.state, seen: self.seen as nat }
    }
}

/// The session in `state`, otherwise as `s`.
pub open spec fn in_state(s: SessionView, state: SessionState) -> SessionView {
    SessionView { id: s.id, state: state, seen: s.seen }
}

/// The session protocol: the session after `event`, and what the host is
/// asked to do.
///
/// While streaming, a version newer than the last one seen asks for exactly
/// one reload and becomes the last one seen; a version that is not newer asks
/// for nothing. The end of either loop starts closing and names the other
/// loop for cancellation. An event that cannot happen in a state leaves the
/// session as it is.
pub open spec fn session_step(s: SessionView, event: SessionEvent) -> (SessionView, SessionAction) {
    match s.state {
        SessionState::Upgraded => match event {
            SessionEvent::Started => (in_state(s, SessionState::Streaming), SessionAction::Idle),
            _ => (s, SessionAction::Idle),
        },
        SessionState::Streaming => match event {
            SessionEvent::Changed(version) => if version > s.seen {
                (
                    SessionView { id: s.id, state: s.state, seen: version as nat },
                    SessionAction::SendReload,
                )
            } else {
                (s, SessionAction::Idle)
            },
            SessionEvent::SendFailed | SessionEvent::BroadcastClosed => (
                in_state(s, SessionState::Closing),
                SessionAction::Cancel(LoopHalf::Receiver),
            ),
            SessionEvent::Received(Frame::Close) | SessionEvent::ReceiveEnded => (
                in_state(s, SessionState::Closing),
                SessionAction::Cancel(LoopHalf::Sender),
            ),
            SessionEvent::Received(Frame::Other)
            | SessionEvent::Sent
            | SessionEvent::Started
            | SessionEvent::Cancelled => (s, SessionAction::Idle),
        },
        SessionState::Closing => match event {
            SessionEvent::Cancelled => (in_state(s, SessionState::Closed), SessionAction::Release),
            _ => (s, SessionAction::Idle),
        },
        SessionState::Closed => (s, SessionAction::Idle),
    }
}

impl Session {
    /// A session for a connection whose handshake has just completed. The
    /// version of `cell` at this moment is its baseline: a change that was
    /// published before the connection is never reported to it.
    pub fn upgraded(id: u32, cell: &BroadcastCell) -> (session: Self)
        ensures
            session@ == (SessionView {
                id: id,
                state: SessionState::Upgraded,
                seen: cell@.version,
            }),
    {
        Session { id, state: SessionState::Upgraded, seen: cell.version() }
    }

    /// The identifier given at creation. It serves diagnostics only.
    pub fn id(&self) -> (id: u32)
        ensures
            id == self@.id,
    {
        self.id
    }

    /// The current state.
    pub fn state(&self) -> (state: SessionState)
        ensures
            state == self@.state,
    {
        self.state
    }

    /// The last version of the cell that this session has seen.
    pub fn seen(&self) -> (version: u64)
        ensures
            version == self@.seen,
    {
        self.seen
    }
}

/// Feeds one event to a session and returns what the host has to do next,
/// exactly as [`session_step`] says. The version a session has seen never
/// goes back.
pub fn notfiy_reload(session: &mut Session, event: SessionEvent) -> (action: SessionAction)
    ensures
        (final(session)@, action) == session_step(old(session)@, event),
        final(session)@.id == old(session)@.id,
        final(session)@.seen >= old(session)@.seen,
{
    match session.state {
        SessionState::Upgraded => match event {
            SessionEvent::Started => {
                session.state = SessionState::Streaming;
                SessionAction::Idle
            },
            _ => SessionAction::Idle,
        },
        SessionState::Streaming => match event {
            SessionEvent::Changed(version) => {
                if version > session.seen {
                    session.seen = version;
                    SessionAction::SendReload
                } else {
                    SessionAction::Idle
                }
            },
            SessionEvent::SendFailed | SessionEvent::BroadcastClosed => {
                session.state = SessionState::Closing;
                SessionAction::Cancel(LoopHalf::Receiver)
            },
            SessionEvent::Received(Frame::Close) | SessionEvent::ReceiveEnded => {
                session.state = SessionState::Closing;
                SessionAction::Cancel(LoopHalf::Sender)
            },
            SessionEvent::Received(Frame::Other)
            | SessionEvent::Sent
            | SessionEvent::Started
            | SessionEvent::Cancelled => SessionAction::Idle,
        },
        SessionState::Closing => match event {
            SessionEvent::Cancelled => {
                session.state = SessionState::Closed;
                SessionAction::Release
            },
            _ => SessionAction::Idle,
        },
        SessionState::Closed => SessionAction::Idle,
    }
}

/// The session after it has read the cell at each of `versions` in turn.
pub open spec fn observe_all(s: SessionView, versions: Seq<u64>) -> SessionView
    decreases versions.len(),
{
    if versions.len() == 0 {
        s
    } else {
        observe_all(
            session_step(s, SessionEvent::Changed(versions[0])).0,
            versions.drop_first(),
        )
    }
}

/// The versions, among `versions` read in turn, for which the session asks
/// for a reload.
pub open spec fn reported(s: SessionView, versions: Seq<u64>) -> Seq<u64>
    decreases versions.len(),
{
    if versions.len() == 0 {
        Seq::empty()
    } else {
        let (next, action) = session_step(s, SessionEvent::Changed(versions[0]));
        let later = reported(next, versions.drop_first());
        if action == SessionAction::SendReload {
            seq![versions[0]] + later
        } else {
            later
        }
    }
}

/// The versions never go down: what successive reads of one cell give.
pub open spec fn non_decreasing(versions: Seq<u64>) -> bool {
    forall|i: int, j: int| 0 <= i <= j < versions.len() ==> versions[i] <= versions[j]
}

/// The sessions after session `i` has handled `event`; every other session
/// is untouched.
pub open spec fn deliver(sessions: Seq<SessionView>, i: int, event: SessionEvent) -> Seq<
    SessionView,
> {
    sessions.update(i, session_step(sessions[i], event).0)
}

/// Order of delivery. Whatever versions a session reads and in whatever
/// order, the versions it asks a reload for are all newer than the one it
/// had seen before and strictly increase: no version is reported twice and
/// none after a newer one.
pub proof fn lemma_reported_versions_increase(s: SessionView, versions: Seq<u64>)
    ensures
        forall|i: int| 0 <= i < reported(s, versions).len() ==> reported(s, versions)[i] > s.seen,
        forall|i: int, j: int|
            0 <= i < j < reported(s, versions).len() ==> reported(s, versions)[i] < reported(
                s,
                versions,
            )[j],
        observe_all(s, versions).seen >= s.seen,
    decreases versions.len(),
{
    if versions.len() > 0 {
        let (next, action) = session_step(s, SessionEvent::Changed(versions[0]));
        let later = reported(next, versions.drop_first());
        lemma_reported_versions_increase(next, versions.drop_first());
        if action == SessionAction::SendReload {
            let all = reported(s, versions);
            assert forall|i: int| 1 <= i < all.len() implies all[i] == later[i - 1] by {}
        }
    }
}

proof fn lemma_sorted_reads(s: SessionView, versions: Seq<u64>)
    requires
        s.state == SessionState::Streaming,
        versions.len() > 0,
        non_decreasing(versions),
        s.seen <= versions[0],
    ensures
        observe_all(s, versions) == (SessionView {
            id: s.id,
            state: SessionState::Streaming,
            seen: versions.last() as nat,
        }),
        reported(s, versions).len() <= versions.last() - s.seen,
        versions.last() > s.seen ==> reported(s, versions).len() >= 1 && reported(
            s,
            versions,
        ).last() == versions.last(),
    decreases versions.len(),
{
    let rest = versions.drop_first();
    let (next, action) = session_step(s, SessionEvent::Changed(versions[0]));
    let later = reported(next, rest);
    if rest.len() == 0 {
        assert(observe_all(next, rest) == next);
        assert(later.len() == 0);
    } else {
        assert forall|i: int, j: int| 0 <= i <= j < rest.len() implies rest[i] <= rest[j] by {
            assert(rest[i] == versions[i + 1] && rest[j] == versions[j + 1]);
        }
        lemma_sorted_reads(next, rest);
    }
    if action == SessionAction::SendReload && later.len() > 0 {
        assert(reported(s, versions).last() == later.last());
    }
}

/// Coalescing. A streaming session whose last seen version is `n >= 1`
/// publications behind reads the cell one or more times while the cell moves
/// on to its latest version. However the reads fall, it asks for at least one
/// reload and at most `n`, the last of them for the latest version, and ends
/// up having seen the latest version.
pub proof fn lemma_coalescing(s: SessionView, versions: Seq<u64>, n: nat)
    requires
        s.state == SessionState::Streaming,
        n >= 1,
        versions.len() > 0,
        non_decreasing(versions),
        s.seen <= versions[0],
        versions.last() == s.seen + n,
    ensures
        1 <= reported(s, versions).len() <= n,
        reported(s, versions).last() == s.seen + n,
        observe_all(s, versions).seen == s.seen + n,
        observe_all(s, versions).state == SessionState::Streaming,
{
    lemma_sorted_reads(s, versions);
}

/// No replay on connect. A session created while the cell is at `version`
/// and then started asks for no reload as long as every read of the cell
/// still gives `version`, however often it reads; the first read of a newer
/// version asks for one.
pub proof fn lemma_no_replay_on_connect(id: u32, version: u64, reads: nat, newer: u64)
    requires
        newer > version,
    ensures
        ({
            let upgraded = SessionView {
                id: id,
                state: SessionState::Upgraded,
                seen: version as nat,
            };
            let streaming = session_step(upgraded, SessionEvent::Started).0;
            let unchanged = Seq::new(reads, |i: int| version);
            &&& reported(streaming, unchanged).len() == 0
            &&& observe_all(streaming, unchanged) == streaming
            &&& session_step(streaming, SessionEvent::Changed(newer)).1
                == SessionAction::SendReload
        }),
    decreases reads,
{
    let unchanged = Seq::new(reads, |i: int| version);
    if reads > 0 {
        lemma_no_replay_on_connect(id, version, (reads - 1) as nat, newer);
        assert(unchanged.drop_first() =~= Seq::new((reads - 1) as nat, |i: int| version));
    }
}

/// Session isolation. Whatever one session goes through, a close frame
/// included, every other session stays as it was and answers its next event
/// as it would have done otherwise.
pub proof fn lemma_session_isolation(
    sessions: Seq<SessionView>,
    i: int,
    j: int,
    event: SessionEvent,
    next: SessionEvent,
)
    requires
        0 <= i < sessions.len(),
        0 <= j < sessions.len(),
        i != j,
    ensures
        deliver(sessions, i, event)[j] == sessions[j],
        session_step(deliver(sessions, i, event)[j], next) == session_step(sessions[j], next),
        deliver(deliver(sessions, i, event), j, next) == deliver(
            deliver(sessions, j, next),
            i,
            event,
        ),
{
    assert(deliver(deliver(sessions, i, event), j, next) =~= deliver(
        deliver(sessions, j, next),
        i,
        event,
    ));
}

} // verus!
