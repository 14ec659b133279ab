use rdc_sessions::RawClientInfo;
use rdc_sessions::RemoteDesktopSessionState;
use rdc_sessions::RemoteServer;
use rdc_sessions::SessionError;
use rdc_sessions::TextField;

fn wide(s: &str) -> Vec<u16> {
    let mut v: Vec<u16> = s.encode_utf16().collect();
    v.push(0);
    v
}

fn raw_info(user: &str, client: &str) -> RawClientInfo {
    RawClientInfo {
        user_name: wide(user),
        client_name: wide(client),
        address_family: 2,
        address: vec![0u16; 31],
    }
}

#[test]
fn open_failure_reports_code() {
    match RemoteServer::new(Err(5)) {
        Err(e) => assert_eq!(e, SessionError::ServerOpenFailed(5)),
        Ok(_) => panic!("open must fail when the collaborator fails"),
    }
}

#[test]
fn open_success_starts_empty() {
    let server = RemoteServer::new(Ok(7)).unwrap();
    let mut it = server.iter();
    assert_eq!(it.len(), 0);
    assert!(it.next().is_none());
}

#[test]
fn refresh_resolves_every_session() {
    let mut server = RemoteServer::new(Ok(7)).unwrap();
    let outcome = server.update_info(
        Ok(vec![(1, 0), (2, 4)]),
        vec![
            Ok(raw_info("alice", "WS01")),
            Ok(raw_info("bob", "WS02")),
        ],
    );
    assert_eq!(outcome, Ok(()));
    let it = server.iter();
    assert_eq!(it.len(), 2);
    let first = it.get(0);
    assert_eq!(first.session_id, 1);
    assert_eq!(first.state, RemoteDesktopSessionState::Active);
    assert_eq!(first.client_info.user, "alice");
    assert_eq!(first.client_info.client, "WS01");
    assert_eq!(first.client_info.address.0, 2);
    assert_eq!(first.client_info.address.1, vec![0u16; 31]);
    let second = it.get(1);
    assert_eq!(second.session_id, 2);
    assert_eq!(second.state, RemoteDesktopSessionState::Disconnected);
    assert_eq!(second.client_info.user, "bob");
    assert_eq!(second.client_info.client, "WS02");
}

#[test]
fn refresh_replaces_whole_snapshot() {
    let mut server = RemoteServer::new(Ok(7)).unwrap();
    server
        .update_info(Ok(vec![(1, 0)]), vec![Ok(raw_info("alice", "WS01"))])
        .unwrap();
    server
        .update_info(Ok(vec![(9, 5)]), vec![Ok(raw_info("carol", "WS09"))])
        .unwrap();
    let it = server.iter();
    assert_eq!(it.len(), 1);
    assert_eq!(it.get(0).session_id, 9);
    assert_eq!(it.get(0).client_info.user, "carol");
    // Zero enumerated sessions is a valid outcome and empties the snapshot.
    server.update_info(Ok(Vec::new()), Vec::new()).unwrap();
    assert_eq!(server.iter().len(), 0);
}

#[test]
fn failed_query_fails_whole_refresh_and_keeps_snapshot() {
    let mut server = RemoteServer::new(Ok(7)).unwrap();
    server
        .update_info(Ok(vec![(1, 0)]), vec![Ok(raw_info("alice", "WS01"))])
        .unwrap();
    let outcome = server.update_info(
        Ok(vec![(1, 0), (2, 4)]),
        vec![Ok(raw_info("alice", "WS01")), Err(5)],
    );
    assert_eq!(outcome, Err(SessionError::ClientInfoQueryFailed(2, 5)));
    let it = server.iter();
    assert_eq!(it.len(), 1);
    assert_eq!(it.get(0).session_id, 1);
    assert_eq!(it.get(0).client_info.user, "alice");
}

#[test]
fn failed_enumeration_keeps_snapshot() {
    let mut server = RemoteServer::new(Ok(7)).unwrap();
    server
        .update_info(Ok(vec![(1, 0)]), vec![Ok(raw_info("alice", "WS01"))])
        .unwrap();
    let outcome = server.update_info(Err(31), Vec::new());
    assert_eq!(outcome, Err(SessionError::SessionEnumerationFailed(31)));
    let it = server.iter();
    assert_eq!(it.len(), 1);
    assert_eq!(it.get(0).client_info.user, "alice");
}

#[test]
fn unknown_state_code_fails_refresh() {
    let mut server = RemoteServer::new(Ok(7)).unwrap();
    let outcome = server.update_info(Ok(vec![(7, 12)]), vec![Ok(raw_info("alice", "WS01"))]);
    assert_eq!(outcome, Err(SessionError::InvalidStateCode(12)));
    assert_eq!(server.iter().len(), 0);
}

#[test]
fn undecodable_user_name_fails_refresh() {
    let mut server = RemoteServer::new(Ok(7)).unwrap();
    let bad = RawClientInfo {
        user_name: vec![0xD800, 0x41, 0],
        client_name: wide("WS01"),
        address_family: 2,
        address: vec![0u16; 31],
    };
    let outcome = server.update_info(Ok(vec![(9, 0)]), vec![Ok(bad)]);
    assert_eq!(
        outcome,
        Err(SessionError::TextDecodeFailed(TextField::UserName, 9))
    );
    assert_eq!(server.iter().len(), 0);
}

#[test]
fn undecodable_client_name_fails_refresh() {
    let mut server = RemoteServer::new(Ok(7)).unwrap();
    let bad = RawClientInfo {
        user_name: wide("alice"),
        client_name: vec![0xDFFF, 0],
        address_family: 2,
        address: vec![0u16; 31],
    };
    let outcome = server.update_info(Ok(vec![(4, 1)]), vec![Ok(bad)]);
    assert_eq!(
        outcome,
        Err(SessionError::TextDecodeFailed(TextField::ClientName, 4))
    );
    assert_eq!(server.iter().len(), 0);
}

#[test]
fn address_words_are_preserved() {
    let mut server = RemoteServer::new(Ok(7)).unwrap();
    let raw = RawClientInfo {
        user_name: wide("alice"),
        client_name: wide("WS01"),
        address_family: 23,
        address: vec![1, 2, 3, 4],
    };
    server.update_info(Ok(vec![(1, 0)]), vec![Ok(raw)]).unwrap();
    let it = server.iter();
    assert_eq!(it.get(0).client_info.address.0, 23);
    assert_eq!(it.get(0).client_info.address.1, vec![1, 2, 3, 4]);
}

#[test]
fn teardown_hands_the_handle_out_once() {
    let mut server = RemoteServer::new(Ok(7)).unwrap();
    assert_eq!(server.teardown(), Some(7));
    assert_eq!(server.teardown(), None);
    assert_eq!(server.teardown(), None);
}

#[test]
fn iteration_is_restartable() {
    let mut server = RemoteServer::new(Ok(7)).unwrap();
    server
        .update_info(
            Ok(vec![(1, 0), (2, 4)]),
            vec![
                Ok(raw_info("alice", "WS01")),
                Ok(raw_info("bob", "WS02")),
            ],
        )
        .unwrap();
    let mut first_pass = server.iter();
    assert_eq!(first_pass.next().unwrap().session_id, 1);
    assert_eq!(first_pass.next().unwrap().session_id, 2);
    assert!(first_pass.next().is_none());
    assert!(first_pass.next().is_none());
    let mut second_pass = server.iter();
    assert_eq!(second_pass.next().unwrap().session_id, 1);
    assert_eq!(second_pass.next().unwrap().session_id, 2);
    assert!(second_pass.next().is_none());
}
