use tokio::sync::mpsc::error::TryRecvError;
use tremolo::codec::{decode_command, Command, Response};
use tremolo::registry::{outbound_queue, DispatchError, Registry, OUTBOUND_CAPACITY};
use tremolo::session::{
    open_session, read_step, write_step, Discarded, Frame, Inbound, Outbound, ReaderAction,
    StopReason, WriterAction,
};

fn name(s: &str) -> String {
    s.to_string()
}

#[test]
fn authenticated_agent_receives_a_dispatched_ping() {
    let mut reg = Registry::new();
    let (session, mut rx, status) = open_session(&mut reg, name("alpha")).unwrap();
    assert_eq!(status.name, "alpha");
    assert!(status.connected);
    assert!(reg.contains(&name("alpha")));
    assert_eq!(reg.session_of(&name("alpha")), Some(0));
    assert!(!session.is_finished());
    assert_eq!(reg.dispatch(&name("alpha"), Command::Ping), Ok(()));
    let queued = rx.try_recv().unwrap();
    let frame = match write_step(Outbound::Next(queued)) {
        WriterAction::Send(t) => t,
        WriterAction::Stop => panic!("writer stopped"),
    };
    assert_eq!(decode_command(&frame), Command::Ping);
}

#[test]
fn dispatch_to_unknown_agent_is_not_connected() {
    let mut reg = Registry::new();
    assert_eq!(reg.dispatch(&name("ghost"), Command::Ping), Err(DispatchError::NotConnected));
    let (_s, _rx, _) = open_session(&mut reg, name("alpha")).unwrap();
    assert_eq!(reg.dispatch(&name("ghost"), Command::Ping), Err(DispatchError::NotConnected));
    assert!(!reg.contains(&name("ghost")));
    assert!(reg.contains(&name("alpha")));
}

#[test]
fn commands_arrive_in_dispatch_order() {
    let mut reg = Registry::new();
    let (_s, mut rx, _) = open_session(&mut reg, name("alpha")).unwrap();
    let sent = [Command::Ping, Command::Invalid, Command::Ping, Command::Invalid];
    for c in sent {
        assert_eq!(reg.dispatch(&name("alpha"), c), Ok(()));
    }
    for c in sent {
        let got = rx.try_recv().unwrap();
        match write_step(Outbound::Next(got)) {
            WriterAction::Send(t) => assert_eq!(decode_command(&t), c),
            WriterAction::Stop => panic!("writer stopped"),
        }
    }
}

#[test]
fn full_queue_fails_fast() {
    let mut reg = Registry::new();
    let (_s, _rx, _) = open_session(&mut reg, name("alpha")).unwrap();
    for _ in 0..OUTBOUND_CAPACITY {
        assert_eq!(reg.dispatch(&name("alpha"), Command::Ping), Ok(()));
    }
    assert_eq!(reg.dispatch(&name("alpha"), Command::Ping), Err(DispatchError::QueueFull));
}

#[test]
fn dispatch_after_the_session_went_is_not_connected() {
    let mut reg = Registry::new();
    let (_s, rx, _) = open_session(&mut reg, name("alpha")).unwrap();
    drop(rx);
    assert_eq!(reg.dispatch(&name("alpha"), Command::Ping), Err(DispatchError::NotConnected));
}

#[test]
fn new_session_supersedes_the_old_one() {
    let mut reg = Registry::new();
    let (old, mut old_rx, _) = open_session(&mut reg, name("alpha")).unwrap();
    let (new, mut new_rx, _) = open_session(&mut reg, name("alpha")).unwrap();
    assert_eq!(reg.session_of(&name("alpha")), Some(1));
    // The old queue lost its sender: its writer sees it closed.
    assert_eq!(old_rx.try_recv(), Err(TryRecvError::Disconnected));
    // Tearing down the old session leaves the new one.
    let mut old = old;
    let t = old.finish().unwrap();
    assert!(!reg.unregister(&t.name, t.session));
    assert!(reg.contains(&name("alpha")));
    assert_eq!(reg.dispatch(&name("alpha"), Command::Ping), Ok(()));
    assert_eq!(new_rx.try_recv(), Ok(Command::Ping));
    let mut new = new;
    let t = new.finish().unwrap();
    assert!(reg.unregister(&t.name, t.session));
    assert!(!reg.contains(&name("alpha")));
    assert_eq!(reg.dispatch(&name("alpha"), Command::Ping), Err(DispatchError::NotConnected));
}

#[test]
fn registry_register_reports_superseded_session() {
    let mut reg = Registry::new();
    let (tx1, _rx1) = outbound_queue();
    let (tx2, _rx2) = outbound_queue();
    let a = reg.register(name("alpha"), tx1).unwrap();
    assert_eq!(a.session, 0);
    assert_eq!(a.superseded, None);
    let b = reg.register(name("alpha"), tx2).unwrap();
    assert_eq!(b.session, 1);
    assert_eq!(b.superseded, Some(0));
}

#[test]
fn close_frame_tears_the_session_down_once() {
    let mut reg = Registry::new();
    let (mut s, _rx, _) = open_session(&mut reg, name("alpha")).unwrap();
    assert_eq!(read_step(&Inbound::Frame(Frame::Close)), ReaderAction::Stop(StopReason::Closed));
    let t = s.finish().unwrap();
    assert_eq!(t.name, "alpha");
    assert_eq!(t.status.name, "alpha");
    assert!(!t.status.connected);
    assert!(reg.unregister(&t.name, t.session));
    assert!(!reg.contains(&name("alpha")));
    assert!(s.is_finished());
    assert!(s.finish().is_none());
}

#[test]
fn malformed_frame_does_not_stop_the_reader() {
    assert_eq!(
        read_step(&Inbound::Frame(Frame::Text("{not json".to_string()))),
        ReaderAction::Discard(Discarded::Malformed)
    );
    assert_eq!(
        read_step(&Inbound::Frame(Frame::Text("\"Pong\"".to_string()))),
        ReaderAction::Apply(Response::Pong)
    );
}

#[test]
fn reader_ignores_control_and_drops_binary_frames() {
    assert_eq!(read_step(&Inbound::Frame(Frame::Ping(vec![1]))), ReaderAction::Ignore);
    assert_eq!(read_step(&Inbound::Frame(Frame::Pong(vec![]))), ReaderAction::Ignore);
    assert_eq!(
        read_step(&Inbound::Frame(Frame::Binary(vec![0, 1]))),
        ReaderAction::Discard(Discarded::Binary)
    );
    assert_eq!(
        read_step(&Inbound::Frame(Frame::Text("\"Invalid\"".to_string()))),
        ReaderAction::Discard(Discarded::Malformed)
    );
}

#[test]
fn lost_transport_stops_the_reader() {
    assert_eq!(read_step(&Inbound::Failed), ReaderAction::Stop(StopReason::TransportLost));
    assert_eq!(read_step(&Inbound::Ended), ReaderAction::Stop(StopReason::TransportLost));
}

#[test]
fn writer_stops_on_closed_queue_or_failed_write() {
    assert!(matches!(write_step(Outbound::QueueClosed), WriterAction::Stop));
    assert!(matches!(write_step(Outbound::WriteFailed), WriterAction::Stop));
    match write_step(Outbound::Next(Command::Ping)) {
        WriterAction::Send(t) => assert_eq!(t, "\"Ping\""),
        WriterAction::Stop => panic!("writer stopped"),
    }
}

#[test]
fn queue_of_gives_the_registered_queue() {
    let mut reg = Registry::new();
    assert!(reg.queue_of(&name("alpha")).is_none());
    let (tx_a, mut rx_a) = outbound_queue();
    let (tx_b, mut rx_b) = outbound_queue();
    reg.register(name("alpha"), tx_a).unwrap();
    reg.register(name("beta"), tx_b).unwrap();
    assert_eq!(reg.dispatch(&name("beta"), Command::Ping), Ok(()));
    assert_eq!(rx_a.try_recv(), Err(TryRecvError::Empty));
    assert_eq!(rx_b.try_recv(), Ok(Command::Ping));
    reg.queue_of(&name("alpha")).unwrap().try_send(Command::Invalid).unwrap();
    assert_eq!(rx_a.try_recv(), Ok(Command::Invalid));
}
