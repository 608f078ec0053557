use gameserverlist::{GameServer, IpAddress, Pagination, ServerList};

fn local_v4() -> IpAddress {
    IpAddress::V4 { a: 127, b: 0, c: 0, d: 1 }
}

#[test]
fn add_server() {
    let server = GameServer::new(String::from("Test"), local_v4(), false, 12345, false);
    let mut server_list = ServerList::new();
    assert_eq!(server_list.len(), 0);
    server_list.add(server);
    assert_eq!(server_list.len(), 1);
}

#[test]
fn remove_server() {
    let server = GameServer::new(String::from("Test"), local_v4(), false, 12345, false);
    let mut server_list = ServerList::new();
    let uuid = server_list.add(server);
    assert_eq!(server_list.len(), 1);
    server_list.remove(&uuid);
    assert_eq!(server_list.len(), 0);
}

#[test]
fn get_server() {
    let server = GameServer::new(String::from("Test"), local_v4(), false, 12345, false);
    let expected = server.clone();
    let mut server_list = ServerList::new();
    server_list.add(server);
    let pagination = Pagination::default();
    let servers = server_list.get(&pagination);
    assert_eq!(servers.len(), 1);
    assert_eq!(servers[0], expected);
}

#[test]
fn update_server() {
    let server = GameServer::new(String::from("Test"), local_v4(), false, 12345, false);
    let mut server_list = ServerList::new();
    let server_id = server_list.add(server);
    server_list.update(&server_id, |mut game_server: GameServer| {
        game_server.players = 10;
        game_server
    });
    let pagination = Pagination::default();
    let updated_server = server_list.get(&pagination);
    assert_eq!(updated_server[0].players, 10)
}

#[test]
fn size_tracks_inserts_and_successful_removes() {
    let mut list = ServerList::new();
    let a = list.add(GameServer::new(String::from("A"), local_v4(), false, 1, false));
    let b = list.add(GameServer::new(String::from("B"), local_v4(), false, 2, false));
    let c = list.add(GameServer::new(String::from("C"), local_v4(), false, 3, false));
    assert_eq!(list.len(), 3);
    assert!(list.remove(&b).is_some());
    assert_eq!(list.len(), 2);
    // a second removal of the same identifier does not count
    assert!(list.remove(&b).is_none());
    assert_eq!(list.len(), 2);
    assert!(list.remove(&a).is_some());
    assert!(list.remove(&c).is_some());
    assert_eq!(list.len(), 0);
    assert!(list.is_empty());
}

#[test]
fn identifiers_are_distinct() {
    let mut list = ServerList::new();
    let mut ids = Vec::new();
    for i in 0..32u16 {
        let id = list.add(GameServer::new(String::from("S"), local_v4(), false, i, false));
        assert!(!ids.contains(&id));
        ids.push(id);
    }
    assert_eq!(list.len(), 32);
}

#[test]
fn remove_unknown_identifier_is_absent() {
    let mut list = ServerList::new();
    list.add(GameServer::new(String::from("Only"), local_v4(), false, 9, false));
    let never_inserted: u128 = 424242;
    assert!(list.remove(&never_inserted).is_none());
    assert_eq!(list.len(), 1);
}

#[test]
fn update_unknown_identifier_is_noop() {
    let mut list = ServerList::new();
    let kept = list.add(GameServer::new(String::from("Kept"), local_v4(), false, 9, false));
    let never_inserted: u128 = 7;
    assert_ne!(kept, never_inserted);
    list.update(&never_inserted, |mut g: GameServer| {
        g.players = 99;
        g
    });
    assert_eq!(list.len(), 1);
    let snapshot = list.get(&Pagination::default());
    assert_eq!(snapshot[0].players, 0);
    assert_eq!(snapshot[0].name, String::from("Kept"));
}

#[test]
fn set_players_rewrites_and_reports_previous() {
    let mut list = ServerList::new();
    let id = list.add(GameServer::new(String::from("S"), local_v4(), false, 1, false));
    assert_eq!(list.set_players(&id, 8), Some(0));
    assert_eq!(list.set_players(&id, 3), Some(8));
    let missing: u128 = 99999;
    assert_eq!(list.set_players(&missing, 5), None);
    assert_eq!(list.get(&Pagination::default())[0].players, 3);
}

#[test]
fn snapshot_respects_offset_and_limit() {
    let mut list = ServerList::new();
    for i in 0..3u16 {
        list.add(GameServer::new(String::from("S"), local_v4(), false, i, false));
    }
    let all = list.get(&Pagination { offset: None, limit: None });
    assert_eq!(all.len(), 3);
    let first_two = list.get(&Pagination { offset: None, limit: Some(2) });
    assert_eq!(first_two.len(), 2);
    let tail = list.get(&Pagination { offset: Some(2), limit: Some(5) });
    assert_eq!(tail.len(), 1);
    let past_end = list.get(&Pagination { offset: Some(5), limit: None });
    assert_eq!(past_end.len(), 0);
    let nothing = list.get(&Pagination { offset: None, limit: Some(0) });
    assert_eq!(nothing.len(), 0);
}
