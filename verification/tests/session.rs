use resrv::asset_tracker::ReloadEvent;
use resrv::session::{
    broadcast_asset_change, notfiy_reload, BroadcastCell, Frame, LoopHalf, Session, SessionAction,
    SessionEvent, SessionState, NOTIFY_PATH, RELOAD_MESSAGE,
};

fn streaming(id: u32, cell: &BroadcastCell) -> Session {
    let mut session = Session::upgraded(id, cell);
    assert_eq!(notfiy_reload(&mut session, SessionEvent::Started), SessionAction::Idle);
    assert_eq!(session.state(), SessionState::Streaming);
    session
}

fn publish(cell: &mut BroadcastCell, times: u64) {
    for _ in 0..times {
        assert!(cell.version() < u64::MAX);
        broadcast_asset_change(cell, ReloadEvent::FileChange);
    }
}

#[test]
fn protocol_constants() {
    assert_eq!(RELOAD_MESSAGE, "reload");
    assert_eq!(NOTIFY_PATH, "/notifyreload");
}

#[test]
fn new_cell_is_at_version_zero() {
    let cell = BroadcastCell::new(ReloadEvent::FileChange);
    assert_eq!(cell.version(), 0);
    assert_eq!(cell.value(), ReloadEvent::FileChange);
}

#[test]
fn publishing_advances_the_version_by_one() {
    let mut cell = BroadcastCell::new(ReloadEvent::FileChange);
    broadcast_asset_change(&mut cell, ReloadEvent::FileChange);
    assert_eq!(cell.version(), 1);
    broadcast_asset_change(&mut cell, ReloadEvent::FileChange);
    assert_eq!(cell.version(), 2);
    assert_eq!(cell.value(), ReloadEvent::FileChange);
}

#[test]
fn upgraded_session_captures_the_baseline() {
    let mut cell = BroadcastCell::new(ReloadEvent::FileChange);
    publish(&mut cell, 3);
    let session = Session::upgraded(7, &cell);
    assert_eq!(session.id(), 7);
    assert_eq!(session.state(), SessionState::Upgraded);
    assert_eq!(session.seen(), 3);
}

#[test]
fn no_replay_on_connect() {
    let mut cell = BroadcastCell::new(ReloadEvent::FileChange);
    publish(&mut cell, 5);
    let mut session = streaming(1, &cell);
    for _ in 0..10 {
        let action = notfiy_reload(&mut session, SessionEvent::Changed(cell.version()));
        assert_eq!(action, SessionAction::Idle);
    }
    assert_eq!(session.seen(), 5);
    publish(&mut cell, 1);
    let action = notfiy_reload(&mut session, SessionEvent::Changed(cell.version()));
    assert_eq!(action, SessionAction::SendReload);
    assert_eq!(session.seen(), 6);
}

#[test]
fn no_replay_on_connect_to_a_fresh_cell() {
    let cell = BroadcastCell::new(ReloadEvent::FileChange);
    let mut session = streaming(1, &cell);
    assert_eq!(notfiy_reload(&mut session, SessionEvent::Changed(0)), SessionAction::Idle);
}

#[test]
fn burst_is_coalesced_into_one_reload() {
    let mut cell = BroadcastCell::new(ReloadEvent::FileChange);
    let mut session = streaming(1, &cell);
    publish(&mut cell, 25);
    let action = notfiy_reload(&mut session, SessionEvent::Changed(cell.version()));
    assert_eq!(action, SessionAction::SendReload);
    assert_eq!(session.seen(), 25);
    let action = notfiy_reload(&mut session, SessionEvent::Changed(cell.version()));
    assert_eq!(action, SessionAction::Idle);
}

#[test]
fn burst_never_gives_more_reloads_than_changes() {
    let mut cell = BroadcastCell::new(ReloadEvent::FileChange);
    let mut session = streaming(1, &cell);
    let mut reloads = 0;
    // four changes, read after the first, twice after the third, and after the fourth
    publish(&mut cell, 1);
    for reads in [1, 0, 2, 1] {
        for _ in 0..reads {
            if notfiy_reload(&mut session, SessionEvent::Changed(cell.version()))
                == SessionAction::SendReload
            {
                reloads += 1;
            }
        }
        if cell.version() < 4 {
            publish(&mut cell, 1);
        }
    }
    assert_eq!(cell.version(), 4);
    assert_eq!(reloads, 3);
    assert_eq!(session.seen(), 4);
}

#[test]
fn older_version_is_never_reported() {
    let mut cell = BroadcastCell::new(ReloadEvent::FileChange);
    publish(&mut cell, 9);
    let mut session = streaming(1, &cell);
    assert_eq!(notfiy_reload(&mut session, SessionEvent::Changed(4)), SessionAction::Idle);
    assert_eq!(session.seen(), 9);
    assert_eq!(notfiy_reload(&mut session, SessionEvent::Changed(10)), SessionAction::SendReload);
    assert_eq!(notfiy_reload(&mut session, SessionEvent::Changed(9)), SessionAction::Idle);
    assert_eq!(session.seen(), 10);
}

#[test]
fn highest_version_is_reported() {
    let cell = BroadcastCell::new(ReloadEvent::FileChange);
    let mut session = streaming(1, &cell);
    assert_eq!(
        notfiy_reload(&mut session, SessionEvent::Changed(u64::MAX)),
        SessionAction::SendReload
    );
    assert_eq!(session.seen(), u64::MAX);
    assert_eq!(notfiy_reload(&mut session, SessionEvent::Changed(u64::MAX)), SessionAction::Idle);
}

#[test]
fn close_frame_ends_the_session() {
    let cell = BroadcastCell::new(ReloadEvent::FileChange);
    let mut session = streaming(1, &cell);
    let action = notfiy_reload(&mut session, SessionEvent::Received(Frame::Close));
    assert_eq!(action, SessionAction::Cancel(LoopHalf::Sender));
    assert_eq!(session.state(), SessionState::Closing);
    let action = notfiy_reload(&mut session, SessionEvent::Cancelled);
    assert_eq!(action, SessionAction::Release);
    assert_eq!(session.state(), SessionState::Closed);
}

#[test]
fn other_frames_are_discarded() {
    let cell = BroadcastCell::new(ReloadEvent::FileChange);
    let mut session = streaming(1, &cell);
    for _ in 0..3 {
        let action = notfiy_reload(&mut session, SessionEvent::Received(Frame::Other));
        assert_eq!(action, SessionAction::Idle);
        assert_eq!(session.state(), SessionState::Streaming);
    }
}

#[test]
fn end_of_client_stream_cancels_the_sender() {
    let cell = BroadcastCell::new(ReloadEvent::FileChange);
    let mut session = streaming(1, &cell);
    let action = notfiy_reload(&mut session, SessionEvent::ReceiveEnded);
    assert_eq!(action, SessionAction::Cancel(LoopHalf::Sender));
    assert_eq!(session.state(), SessionState::Closing);
}

#[test]
fn delivered_reload_keeps_the_session_streaming() {
    let mut cell = BroadcastCell::new(ReloadEvent::FileChange);
    let mut session = streaming(1, &cell);
    publish(&mut cell, 1);
    assert_eq!(
        notfiy_reload(&mut session, SessionEvent::Changed(cell.version())),
        SessionAction::SendReload
    );
    assert_eq!(notfiy_reload(&mut session, SessionEvent::Sent), SessionAction::Idle);
    assert_eq!(session.state(), SessionState::Streaming);
    assert_eq!(session.seen(), 1);
}

#[test]
fn send_failure_cancels_the_receiver() {
    let mut cell = BroadcastCell::new(ReloadEvent::FileChange);
    let mut session = streaming(1, &cell);
    publish(&mut cell, 1);
    assert_eq!(
        notfiy_reload(&mut session, SessionEvent::Changed(cell.version())),
        SessionAction::SendReload
    );
    let action = notfiy_reload(&mut session, SessionEvent::SendFailed);
    assert_eq!(action, SessionAction::Cancel(LoopHalf::Receiver));
    assert_eq!(session.state(), SessionState::Closing);
    assert_eq!(notfiy_reload(&mut session, SessionEvent::Cancelled), SessionAction::Release);
    assert_eq!(session.state(), SessionState::Closed);
}

#[test]
fn loss_of_the_cell_cancels_the_receiver() {
    let cell = BroadcastCell::new(ReloadEvent::FileChange);
    let mut session = streaming(1, &cell);
    let action = notfiy_reload(&mut session, SessionEvent::BroadcastClosed);
    assert_eq!(action, SessionAction::Cancel(LoopHalf::Receiver));
    assert_eq!(session.state(), SessionState::Closing);
}

#[test]
fn nothing_is_sent_before_streaming() {
    let cell = BroadcastCell::new(ReloadEvent::FileChange);
    let mut session = Session::upgraded(1, &cell);
    for event in [
        SessionEvent::Changed(3),
        SessionEvent::Sent,
        SessionEvent::SendFailed,
        SessionEvent::BroadcastClosed,
        SessionEvent::Received(Frame::Close),
        SessionEvent::Received(Frame::Other),
        SessionEvent::ReceiveEnded,
        SessionEvent::Cancelled,
    ] {
        assert_eq!(notfiy_reload(&mut session, event), SessionAction::Idle);
        assert_eq!(session.state(), SessionState::Upgraded);
        assert_eq!(session.seen(), 0);
    }
}

#[test]
fn nothing_is_sent_while_closing_or_closed() {
    let cell = BroadcastCell::new(ReloadEvent::FileChange);
    let mut session = streaming(1, &cell);
    notfiy_reload(&mut session, SessionEvent::Received(Frame::Close));
    for event in [
        SessionEvent::Started,
        SessionEvent::Changed(3),
        SessionEvent::Sent,
        SessionEvent::SendFailed,
        SessionEvent::BroadcastClosed,
        SessionEvent::Received(Frame::Close),
        SessionEvent::Received(Frame::Other),
        SessionEvent::ReceiveEnded,
    ] {
        assert_eq!(notfiy_reload(&mut session, event), SessionAction::Idle);
        assert_eq!(session.state(), SessionState::Closing);
    }
    assert_eq!(notfiy_reload(&mut session, SessionEvent::Cancelled), SessionAction::Release);
    for event in [
        SessionEvent::Started,
        SessionEvent::Changed(3),
        SessionEvent::Received(Frame::Close),
        SessionEvent::Cancelled,
    ] {
        assert_eq!(notfiy_reload(&mut session, event), SessionAction::Idle);
        assert_eq!(session.state(), SessionState::Closed);
        assert_eq!(session.seen(), 0);
    }
}

#[test]
fn repeated_start_changes_nothing() {
    let cell = BroadcastCell::new(ReloadEvent::FileChange);
    let mut session = streaming(1, &cell);
    assert_eq!(notfiy_reload(&mut session, SessionEvent::Started), SessionAction::Idle);
    assert_eq!(notfiy_reload(&mut session, SessionEvent::Cancelled), SessionAction::Idle);
    assert_eq!(session.state(), SessionState::Streaming);
}

#[test]
fn closing_one_session_leaves_the_other_alone() {
    let mut cell = BroadcastCell::new(ReloadEvent::FileChange);
    let mut first = streaming(1, &cell);
    let mut second = streaming(2, &cell);
    notfiy_reload(&mut first, SessionEvent::Received(Frame::Close));
    notfiy_reload(&mut first, SessionEvent::Cancelled);
    assert_eq!(first.state(), SessionState::Closed);
    assert_eq!(second.state(), SessionState::Streaming);
    publish(&mut cell, 1);
    assert_eq!(
        notfiy_reload(&mut first, SessionEvent::Changed(cell.version())),
        SessionAction::Idle
    );
    assert_eq!(
        notfiy_reload(&mut second, SessionEvent::Changed(cell.version())),
        SessionAction::SendReload
    );
    assert_eq!(second.id(), 2);
    assert_eq!(second.seen(), 1);
}

#[test]
fn reconnecting_client_starts_from_the_current_version() {
    let mut cell = BroadcastCell::new(ReloadEvent::FileChange);
    let mut session = streaming(1, &cell);
    publish(&mut cell, 2);
    notfiy_reload(&mut session, SessionEvent::Received(Frame::Close));
    notfiy_reload(&mut session, SessionEvent::Cancelled);
    let mut again = streaming(2, &cell);
    assert_eq!(
        notfiy_reload(&mut again, SessionEvent::Changed(cell.version())),
        SessionAction::Idle
    );
}
