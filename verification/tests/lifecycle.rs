use palm::log::{DataPacket, IoFault, LogData};
use palm::net_state::{AtomicNetState, Mode, NetState};
use palm::session::{Session, SessionEvent, CONNECT_TIMEOUT_SECS, READ_CHUNK_SIZE};

fn fault(interrupted: bool, message: &str) -> IoFault {
    IoFault { interrupted, message: message.to_string() }
}

fn active_session(address: &str) -> Session {
    let mut session = Session::new();
    session.step(SessionEvent::StartClient(address.to_string()));
    session.step(SessionEvent::Connected);
    session
}

#[test]
fn net_state_defaults_to_inactive() {
    assert_eq!(NetState::default(), NetState::Inactive);
    assert_eq!(Mode::default(), Mode::Client);
    assert_eq!(Mode::Client.name(), "Client");
    assert_eq!(Mode::Server.name(), "Server");
}

#[test]
fn net_state_codes_round_trip() {
    for state in [NetState::Inactive, NetState::Establishing, NetState::Active] {
        assert_eq!(NetState::from_usize(state.to_usize()), state);
    }
    assert_eq!(NetState::Inactive.to_usize(), 0);
    assert_eq!(NetState::Establishing.to_usize(), 1);
    assert_eq!(NetState::Active.to_usize(), 2);
    assert_eq!(NetState::from_usize(7), NetState::Inactive);
}

#[test]
fn lifecycle_has_four_edges() {
    let all = [NetState::Inactive, NetState::Establishing, NetState::Active];
    let mut edges = 0;
    for from in all {
        for to in all {
            if from.can_step_to(to) {
                edges += 1;
            }
        }
    }
    assert_eq!(edges, 4);
    assert!(NetState::Inactive.can_step_to(NetState::Establishing));
    assert!(NetState::Establishing.can_step_to(NetState::Active));
    assert!(NetState::Establishing.can_step_to(NetState::Inactive));
    assert!(NetState::Active.can_step_to(NetState::Inactive));
    assert!(!NetState::Inactive.can_step_to(NetState::Active));
    assert!(!NetState::Active.can_step_to(NetState::Establishing));
}

#[test]
fn atomic_net_state_keeps_what_was_stored() {
    let cell = AtomicNetState::new(NetState::Inactive);
    assert_eq!(cell.load(), NetState::Inactive);
    cell.store(NetState::Establishing);
    assert_eq!(cell.load(), NetState::Establishing);
    cell.store(NetState::Active);
    assert_eq!(cell.load(), NetState::Active);
}

#[test]
fn constants_of_the_session() {
    assert_eq!(CONNECT_TIMEOUT_SECS, 8);
    assert_eq!(READ_CHUNK_SIZE, 2048);
}

#[test]
fn new_session_is_inactive() {
    let session = Session::new();
    assert_eq!(session.state(), NetState::Inactive);
    assert!(!session.reader_running());
    assert!(!session.writer_running());
    assert!(session.accepts(&SessionEvent::StartClient("a".to_string())));
    assert!(!session.accepts(&SessionEvent::Connected));
    assert!(!session.accepts(&SessionEvent::Joined));
}

#[test]
fn client_start_establishes_then_activates() {
    let mut session = Session::new();
    let step = session.step(SessionEvent::StartClient("127.0.0.1:9000".to_string()));
    assert!(step.local.is_none());
    assert_eq!(session.state(), NetState::Establishing);
    assert_eq!(session.address(), "127.0.0.1:9000");
    assert!(!session.accepts(&SessionEvent::StartClient("b".to_string())));

    let step = session.step(SessionEvent::Connected);
    assert_eq!(session.state(), NetState::Active);
    assert!(session.reader_running());
    assert!(session.writer_running());
    assert!(matches!(
        step.local.unwrap().data,
        LogData::ClientConnect(address) if address == "127.0.0.1:9000"
    ));
    assert!(step.parent.is_none());
    assert!(!step.raise_shutdown);
    assert!(!step.reset_shutdown);
}

#[test]
fn refused_connect_logs_one_error_and_resets() {
    let mut session = Session::new();
    session.step(SessionEvent::StartClient("127.0.0.1:1".to_string()));
    let step = session.step(SessionEvent::ConnectFailed(fault(false, "connection refused")));
    assert_eq!(session.state(), NetState::Inactive);
    match step.local.unwrap().data {
        LogData::ConnectError(fault) => assert_eq!(fault.message, "connection refused"),
        other => panic!("unexpected entry {:?}", other),
    }
    assert!(step.parent.is_none());
    assert!(!session.accepts(&SessionEvent::ConnectTimedOut));
    assert!(session.accepts(&SessionEvent::StartClient("again".to_string())));
}

#[test]
fn timed_out_connect_logs_one_timeout_and_resets() {
    let mut session = Session::new();
    session.step(SessionEvent::StartClient("10.255.255.1:9".to_string()));
    let step = session.step(SessionEvent::ConnectTimedOut);
    assert_eq!(session.state(), NetState::Inactive);
    assert!(matches!(step.local.unwrap().data, LogData::ConnectTimedOut));
    assert!(step.parent.is_none());
    assert!(!session.accepts(&SessionEvent::ConnectFailed(fault(false, "late"))));
}

#[test]
fn adoption_is_active_at_once() {
    let mut session = Session::new();
    let step = session
        .step(SessionEvent::Adopt { address: "127.0.0.1:50000".to_string(), fans_out: true });
    assert_eq!(session.state(), NetState::Active);
    assert!(session.reader_running() && session.writer_running());
    assert!(matches!(
        step.local.unwrap().data,
        LogData::ClientConnect(address) if address == "127.0.0.1:50000"
    ));
}

#[test]
fn read_bytes_become_a_received_packet() {
    let mut session = active_session("peer:1");
    let step = session.step(SessionEvent::ReaderRead(vec![0xDE, 0xAD, 0xBE, 0xEF]));
    match step.local.unwrap().data {
        LogData::ReceivedPacket(packet) => {
            assert_eq!(packet.address, "peer:1");
            assert_eq!(packet.data, vec![0xDE, 0xAD, 0xBE, 0xEF]);
        }
        other => panic!("unexpected entry {:?}", other),
    }
    assert!(!step.raise_shutdown);
    assert!(session.reader_running());
    assert_eq!(session.state(), NetState::Active);
}

#[test]
fn chunks_of_a_large_payload_join_to_the_payload() {
    let payload: Vec<u8> = (0..5000u32).map(|i| (i % 251) as u8).collect();
    let mut session = active_session("peer:2");
    let mut received = Vec::new();
    let mut packets = 0;
    for chunk in payload.chunks(READ_CHUNK_SIZE) {
        let step = session.step(SessionEvent::ReaderRead(chunk.to_vec()));
        match step.local.unwrap().data {
            LogData::ReceivedPacket(packet) => {
                assert_eq!(packet.address, "peer:2");
                received.extend_from_slice(&packet.data);
                packets += 1;
            }
            other => panic!("unexpected entry {:?}", other),
        }
    }
    assert_eq!(packets, 3);
    assert_eq!(received, payload);
}

#[test]
fn empty_read_raises_shutdown_without_an_entry() {
    let mut session = active_session("peer:3");
    let step = session.step(SessionEvent::ReaderRead(Vec::new()));
    assert!(step.local.is_none());
    assert!(step.raise_shutdown);
    assert!(session.reader_running());
}

#[test]
fn interrupted_read_is_retried_silently() {
    let mut session = active_session("peer:4");
    let step = session.step(SessionEvent::ReaderFailed(fault(true, "interrupted")));
    assert!(step.local.is_none());
    assert!(!step.raise_shutdown);
    assert!(session.reader_running());
}

#[test]
fn fatal_read_error_is_logged_and_ends_the_reader() {
    let mut session = active_session("peer:5");
    let step = session.step(SessionEvent::ReaderFailed(fault(false, "connection reset")));
    match step.local.unwrap().data {
        LogData::FatalReadError(fault) => assert_eq!(fault.message, "connection reset"),
        other => panic!("unexpected entry {:?}", other),
    }
    assert!(step.raise_shutdown);
    assert!(!session.reader_running());
    assert!(session.writer_running());
    assert_eq!(session.state(), NetState::Active);
}

#[test]
fn external_signal_re_raises_the_local_one() {
    let mut session = Session::new();
    session.step(SessionEvent::Adopt { address: "child:1".to_string(), fans_out: true });
    let lowered = session.step(SessionEvent::ReaderExternal(false));
    assert!(!lowered.raise_shutdown);
    let raised = session.step(SessionEvent::ReaderExternal(true));
    assert!(raised.raise_shutdown);
    assert!(raised.local.is_none());
    assert!(session.reader_running());
    assert_eq!(session.state(), NetState::Active);
}

#[test]
fn writer_transmits_the_whole_payload() {
    let mut session = active_session("peer:6");
    let packet = DataPacket::new(String::new(), vec![1, 2, 3]);
    let step = session.step(SessionEvent::WriterPacket(packet));
    assert_eq!(step.transmit, Some(vec![1, 2, 3]));
    assert!(step.local.is_none());
    assert!(session.writer_running());
}

#[test]
fn lowered_signal_keeps_the_loops_running() {
    let mut session = active_session("peer:7");
    session.step(SessionEvent::ReaderShutdown(false));
    session.step(SessionEvent::WriterShutdown(false));
    assert!(session.reader_running());
    assert!(session.writer_running());
    assert!(!session.accepts(&SessionEvent::Joined));
}

#[test]
fn shutdown_disconnects_exactly_once() {
    let mut session = active_session("peer:8");
    let mut disconnects = 0;
    for event in
        [SessionEvent::ReaderShutdown(true), SessionEvent::WriterShutdown(true), SessionEvent::Joined]
    {
        assert!(session.accepts(&event));
        let step = session.step(event);
        if let Some(log) = step.local {
            if let LogData::ClientDisconnect(address) = log.data {
                assert_eq!(address, "peer:8");
                disconnects += 1;
                assert!(step.reset_shutdown);
                assert!(step.parent.is_none());
            }
        }
    }
    assert_eq!(disconnects, 1);
    assert_eq!(session.state(), NetState::Inactive);
    // A second request to stop finds nothing that could observe it.
    assert!(!session.accepts(&SessionEvent::ReaderShutdown(true)));
    assert!(!session.accepts(&SessionEvent::WriterShutdown(true)));
    assert!(!session.accepts(&SessionEvent::Joined));
}

#[test]
fn adopted_session_reports_its_end_to_the_parent() {
    let mut session = Session::new();
    session.step(SessionEvent::Adopt { address: "child:2".to_string(), fans_out: true });
    session.step(SessionEvent::WriterShutdown(true));
    session.step(SessionEvent::ReaderShutdown(true));
    let step = session.step(SessionEvent::Joined);
    assert!(matches!(
        step.local.unwrap().data,
        LogData::ClientDisconnect(address) if address == "child:2"
    ));
    assert!(matches!(
        step.parent.unwrap().data,
        LogData::ClientDisconnect(address) if address == "child:2"
    ));
    assert_eq!(session.state(), NetState::Inactive);
}

#[test]
fn every_step_follows_the_lifecycle() {
    let mut session = Session::new();
    let events = vec![
        SessionEvent::StartClient("peer:9".to_string()),
        SessionEvent::ConnectTimedOut,
        SessionEvent::StartClient("peer:9".to_string()),
        SessionEvent::Connected,
        SessionEvent::ReaderRead(vec![1]),
        SessionEvent::ReaderRead(Vec::new()),
        SessionEvent::WriterShutdown(true),
        SessionEvent::ReaderShutdown(true),
        SessionEvent::Joined,
    ];
    for event in events {
        assert!(session.accepts(&event));
        let before = session.state();
        session.step(event);
        let after = session.state();
        assert!(before == after || before.can_step_to(after));
    }
    assert_eq!(session.state(), NetState::Inactive);
}

#[test]
fn closed_send_queue_raises_shutdown() {
    let mut session = active_session("peer:10");
    assert!(session.accepts(&SessionEvent::WriterQueueClosed));
    let step = session.step(SessionEvent::WriterQueueClosed);
    assert!(step.raise_shutdown);
    assert!(step.local.is_none() && step.transmit.is_none());
    assert!(session.writer_running());
    assert_eq!(session.state(), NetState::Active);
    session.step(SessionEvent::WriterShutdown(true));
    assert!(!session.accepts(&SessionEvent::WriterQueueClosed));
}
