use gameserverlist::{Connection, GameServer, InboundEvent, IpAddress, Pagination, ServerList, StepEffect};

fn loopback() -> IpAddress {
    IpAddress::V4 { a: 127, b: 0, c: 0, d: 1 }
}

fn public_addr() -> IpAddress {
    IpAddress::V4 { a: 203, b: 0, c: 113, d: 9 }
}

fn text(payload: &str) -> InboundEvent {
    InboundEvent::Text { payload: payload.to_string() }
}

#[test]
fn scenario_connect_from_local_address() {
    let mut list = ServerList::new();
    let mut conn = Connection::new(loopback(), public_addr());
    let eff = conn.step(&mut list, text("{\"name\":\"Alpha\",\"port\":7777}"));
    assert!(matches!(eff, StepEffect::Registered { .. }));
    assert!(!conn.is_terminated());
    let records = list.get(&Pagination::default());
    assert_eq!(records.len(), 1);
    let expected = GameServer::new(String::from("Alpha"), public_addr(), false, 7777, true);
    assert_eq!(records[0], expected);
}

#[test]
fn scenario_status_updates_rewrite_players() {
    let mut list = ServerList::new();
    let mut conn = Connection::new(loopback(), public_addr());
    conn.step(&mut list, text("{\"name\":\"Alpha\",\"port\":7777}"));
    let eff = conn.step(&mut list, text("{\"players\":5}"));
    assert_eq!(eff, StepEffect::PlayersUpdated { before: 0, after: 5 });
    assert_eq!(list.get(&Pagination::default())[0].players, 5);
    let eff = conn.step(&mut list, text("{\"players\":2}"));
    assert_eq!(eff, StepEffect::PlayersUpdated { before: 5, after: 2 });
    assert_eq!(list.get(&Pagination::default())[0].players, 2);
}

#[test]
fn scenario_close_removes_record() {
    let mut list = ServerList::new();
    let bystander =
        list.add(GameServer::new(String::from("Other"), public_addr(), true, 1000, false));
    let size_before = list.len();
    let mut conn = Connection::new(loopback(), public_addr());
    conn.step(&mut list, text("{\"name\":\"Alpha\",\"port\":7777}"));
    conn.step(&mut list, text("{\"players\":5}"));
    conn.step(&mut list, text("{\"players\":2}"));
    let eff = conn.step(&mut list, InboundEvent::CloseFrame);
    assert!(conn.is_terminated());
    match eff {
        StepEffect::Deregistered { removed } => {
            let gone = removed.expect("the record must still be there");
            assert_eq!(gone.name, String::from("Alpha"));
            assert_eq!(gone.players, 2);
        },
        other => panic!("unexpected effect: {:?}", other),
    }
    assert_eq!(list.len(), size_before);
    let snapshot = list.get(&Pagination::default());
    assert_eq!(snapshot.len(), 1);
    assert!(snapshot.iter().all(|g| g.name != String::from("Alpha")));
    let _ = bystander;
}

#[test]
fn scenario_rejected_handshake_leaves_no_record() {
    let mut list = ServerList::new();
    let mut conn = Connection::new(loopback(), public_addr());
    let eff = conn.step(&mut list, text("{\"foo\":\"bar\"}"));
    match eff {
        StepEffect::HandshakeRejected { error } => {
            assert_eq!(error, "{\"foo\":\"bar\"}".to_string());
        },
        other => panic!("unexpected effect: {:?}", other),
    }
    assert!(conn.is_terminated());
    assert!(list.is_empty());
    assert_eq!(list.get(&Pagination::default()).len(), 0);
}

#[test]
fn close_before_handshake_creates_nothing() {
    let mut list = ServerList::new();
    let mut conn = Connection::new(public_addr(), public_addr());
    let eff = conn.step(&mut list, InboundEvent::CloseFrame);
    assert_eq!(eff, StepEffect::EndedBeforeHandshake);
    assert!(conn.is_terminated());
    assert!(list.is_empty());
}

#[test]
fn non_text_frame_before_handshake_terminates() {
    let mut list = ServerList::new();
    let mut conn = Connection::new(public_addr(), public_addr());
    let eff = conn.step(&mut list, InboundEvent::OtherFrame);
    assert_eq!(eff, StepEffect::EndedBeforeHandshake);
    assert!(conn.is_terminated());
    assert!(list.is_empty());
}

#[test]
fn malformed_status_is_dropped_and_session_goes_on() {
    let mut list = ServerList::new();
    let mut conn = Connection::new(IpAddress::V4 { a: 8, b: 8, c: 8, d: 8 }, public_addr());
    conn.step(&mut list, text("{\"name\":\"Beta\",\"port\":1,\"tls\":true}"));
    let eff = conn.step(&mut list, text("{\"players\":\"many\"}"));
    assert_eq!(eff, StepEffect::StatusIgnored);
    assert!(!conn.is_terminated());
    assert_eq!(list.get(&Pagination::default())[0].players, 0);
    let eff = conn.step(&mut list, text("{\"players\":4}"));
    assert_eq!(eff, StepEffect::PlayersUpdated { before: 0, after: 4 });
}

#[test]
fn other_frames_are_ignored_while_active() {
    let mut list = ServerList::new();
    let mut conn = Connection::new(public_addr(), public_addr());
    conn.step(&mut list, text("{\"name\":\"Beta\",\"port\":1}"));
    let eff = conn.step(&mut list, InboundEvent::OtherFrame);
    assert_eq!(eff, StepEffect::FrameIgnored);
    assert!(!conn.is_terminated());
    assert_eq!(list.len(), 1);
}

#[test]
fn transport_error_removes_record() {
    let mut list = ServerList::new();
    let mut conn = Connection::new(public_addr(), public_addr());
    conn.step(&mut list, text("{\"name\":\"Beta\",\"port\":1}"));
    let eff = conn.step(&mut list, InboundEvent::TransportError);
    assert!(matches!(eff, StepEffect::Deregistered { removed: Some(_) }));
    assert!(conn.is_terminated());
    assert!(list.is_empty());
}

#[test]
fn steps_after_termination_do_nothing() {
    let mut list = ServerList::new();
    let mut conn = Connection::new(public_addr(), public_addr());
    conn.step(&mut list, InboundEvent::StreamEnded);
    let eff = conn.step(&mut list, text("{\"name\":\"Beta\",\"port\":1}"));
    assert_eq!(eff, StepEffect::AlreadyTerminated);
    assert!(list.is_empty());
}
