use artplace::server::{
    Connect, Disconnect, JoinRoom, Movement, SetBrush, SnapperRequest, Snapshot,
};
use artplace::session::{
    Action, CloseReason, DecodeError, Frame, MailboxError, ProtocolError, WsClientSession,
    CLIENT_TIMEOUT, HEARTBEAT_INTERVAL, NOT_IDENTIFIED, NOT_IN_ROOM,
};
use artplace::wsmsg;
use artplace::wsmsg::{client_message, server_message, ClientMessage, RoomInit, ServerMessage};

fn s(text: &str) -> String {
    text.to_string()
}

fn binary(kind: client_message::Kind) -> Result<Frame, ProtocolError> {
    Ok(Frame::Binary(Ok(ClientMessage { kind: Some(kind) })))
}

fn error(text: &str) -> Action {
    Action::Send(ServerMessage { kind: Some(server_message::Kind::ServerError(s(text))) })
}

fn identified() -> WsClientSession {
    let mut session = WsClientSession::new(0);
    session.registered(Ok(s("u1")));
    session
}

fn in_room() -> WsClientSession {
    let mut session = identified();
    session.joined(Ok(RoomInit { room_id: s("r1"), snapshot: None, log: vec![] }));
    session
}

fn join_request(room: Option<&str>) -> client_message::Kind {
    client_message::Kind::JoinRoom(client_message::JoinRoom { room_id: room.map(s) })
}

fn all_room_operations() -> Vec<client_message::Kind> {
    vec![
        client_message::Kind::SetBrush(client_message::SetBrush { brush: Some(vec![1]) }),
        client_message::Kind::Movement(client_message::Movement { point: None, kind: 2 }),
        client_message::Kind::Snapshot(wsmsg::Snapshot { payload: vec![5], next_log_index: 3 }),
        client_message::Kind::SnapperRequest(wsmsg::SnapperRequest {}),
    ]
}

#[test]
fn timing_constants() {
    assert_eq!(HEARTBEAT_INTERVAL, 5000);
    assert_eq!(CLIENT_TIMEOUT, 10000);
}

#[test]
fn a_new_session_has_no_identity() {
    let session = WsClientSession::new(17);
    assert_eq!(
        session,
        WsClientSession { id: None, room_id: None, hb: 17, closed: false }
    );
}

#[test]
fn starting_asks_for_registration() {
    let mut session = WsClientSession::new(0);
    assert_eq!(session.started(9), vec![Action::Connect(Connect { id: None, addr: 9 })]);
    assert_eq!(session, WsClientSession::new(0));
}

#[test]
fn registration_sets_the_id_and_tells_the_client() {
    let mut session = WsClientSession::new(0);
    let actions = session.registered(Ok(s("u1")));
    assert_eq!(
        actions,
        vec![Action::Send(ServerMessage {
            kind: Some(server_message::Kind::SetId(wsmsg::SetId { id: s("u1") })),
        })]
    );
    assert_eq!(session.id, Some(s("u1")));
    assert_eq!(session.room_id, None);
    assert!(!session.closed);
}

#[test]
fn failed_registration_ends_the_session() {
    let mut session = WsClientSession::new(0);
    assert_eq!(session.registered(Err(MailboxError {})), vec![Action::Stop]);
    assert!(session.closed);
    assert_eq!(session.id, None);
}

#[test]
fn join_is_passed_on_with_identity_and_current_room() {
    let mut session = identified();
    assert_eq!(
        session.handle(binary(join_request(Some("r1"))), 1),
        vec![Action::JoinRoom(JoinRoom {
            id: s("u1"),
            room_id: None,
            join_room: client_message::JoinRoom { room_id: Some(s("r1")) },
        })]
    );
    let mut session = in_room();
    assert_eq!(
        session.handle(binary(join_request(None)), 1),
        vec![Action::JoinRoom(JoinRoom {
            id: s("u1"),
            room_id: Some(s("r1")),
            join_room: client_message::JoinRoom { room_id: None },
        })]
    );
    assert_eq!(session, in_room());
}

#[test]
fn the_answer_to_a_join_sets_the_room() {
    let mut session = identified();
    let init = RoomInit {
        room_id: s("r7"),
        snapshot: Some(wsmsg::Snapshot { payload: vec![1], next_log_index: 4 }),
        log: vec![],
    };
    let actions = session.joined(Ok(init.clone()));
    assert_eq!(
        actions,
        vec![Action::Send(ServerMessage { kind: Some(server_message::Kind::RoomInit(init)) })]
    );
    assert_eq!(session.room_id, Some(s("r7")));
    assert_eq!(session.id, Some(s("u1")));
}

#[test]
fn a_failed_join_ends_the_session() {
    let mut session = in_room();
    assert_eq!(
        session.joined(Err(MailboxError {})),
        vec![
            Action::Disconnect(Disconnect { id: s("u1"), room_id: Some(s("r1")) }),
            Action::Stop,
        ]
    );
    assert!(session.closed);
}

#[test]
fn room_operations_are_passed_on_in_a_room() {
    let mut session = in_room();
    let expected = vec![
        Action::SetBrush(SetBrush {
            id: s("u1"),
            room_id: s("r1"),
            set_brush: client_message::SetBrush { brush: Some(vec![1]) },
        }),
        Action::Movement(Movement {
            id: s("u1"),
            room_id: s("r1"),
            movement: client_message::Movement { point: None, kind: 2 },
        }),
        Action::Snapshot(Snapshot {
            id: s("u1"),
            room_id: s("r1"),
            snapshot: wsmsg::Snapshot { payload: vec![5], next_log_index: 3 },
        }),
        Action::SnapperRequest(SnapperRequest {
            id: s("u1"),
            room_id: s("r1"),
            snapper_request: wsmsg::SnapperRequest {},
        }),
    ];
    for (kind, action) in all_room_operations().into_iter().zip(expected) {
        assert_eq!(session.handle(binary(kind), 1), vec![action]);
    }
    assert_eq!(session, in_room());
}

#[test]
fn room_operations_outside_a_room_are_refused() {
    let mut session = identified();
    for kind in all_room_operations() {
        assert_eq!(session.handle(binary(kind), 1), vec![error("not in a room")]);
    }
    assert_eq!(session, identified());
    assert_eq!(NOT_IN_ROOM, "not in a room");
}

#[test]
fn operations_without_identity_are_refused() {
    let mut session = WsClientSession::new(0);
    let mut kinds = all_room_operations();
    kinds.push(join_request(Some("r1")));
    for kind in kinds {
        assert_eq!(session.handle(binary(kind), 1), vec![error("no identity assigned yet")]);
    }
    assert_eq!(session, WsClientSession::new(0));
    assert_eq!(NOT_IDENTIFIED, "no identity assigned yet");
}

#[test]
fn a_message_without_a_variant_is_dropped() {
    let mut session = in_room();
    let frame = Ok(Frame::Binary(Ok(ClientMessage { kind: None })));
    assert_eq!(session.handle(frame, 1), vec![]);
    assert_eq!(session, in_room());
}

#[test]
fn an_undecodable_payload_is_dropped() {
    let mut session = in_room();
    assert_eq!(session.handle(Ok(Frame::Binary(Err(DecodeError {}))), 1), vec![]);
    assert_eq!(session, in_room());
}

#[test]
fn frames_of_other_kinds_are_ignored() {
    let mut session = in_room();
    assert_eq!(session.handle(Ok(Frame::Text(s("hello"))), 5), vec![]);
    assert_eq!(session.handle(Ok(Frame::Continuation), 5), vec![]);
    assert_eq!(session.handle(Ok(Frame::Nop), 5), vec![]);
    assert_eq!(session, in_room());
}

#[test]
fn a_ping_is_answered_and_counts_as_a_sign_of_life() {
    let mut session = in_room();
    assert_eq!(session.handle(Ok(Frame::Ping(vec![1, 2])), 77), vec![Action::Pong(vec![1, 2])]);
    assert_eq!(session.hb, 77);
}

#[test]
fn a_pong_counts_as_a_sign_of_life() {
    let mut session = in_room();
    assert_eq!(session.handle(Ok(Frame::Pong(vec![])), 88), vec![]);
    assert_eq!(session.hb, 88);
}

#[test]
fn a_client_message_is_no_sign_of_life() {
    let mut session = in_room();
    session.handle(binary(join_request(None)), 99);
    assert_eq!(session.hb, 0);
}

#[test]
fn a_close_frame_ends_the_session() {
    let mut session = in_room();
    let reason = CloseReason { code: 1000, description: Some(s("bye")) };
    assert_eq!(
        session.handle(Ok(Frame::Close(Some(reason))), 1),
        vec![
            Action::Close(Some(CloseReason { code: 1000, description: Some(s("bye")) })),
            Action::Disconnect(Disconnect { id: s("u1"), room_id: Some(s("r1")) }),
            Action::Stop,
        ]
    );
    assert!(session.closed);
    assert_eq!(session.stopping(), vec![]);
}

#[test]
fn a_transport_failure_ends_the_session() {
    let mut session = identified();
    assert_eq!(
        session.handle(Err(ProtocolError {}), 1),
        vec![Action::Disconnect(Disconnect { id: s("u1"), room_id: None }), Action::Stop]
    );
    assert!(session.closed);
}

#[test]
fn a_live_peer_is_probed() {
    let mut session = in_room();
    session.handle(Ok(Frame::Pong(vec![])), 1000);
    assert_eq!(session.hb(1000), vec![Action::Ping]);
    assert_eq!(session.hb(6000), vec![Action::Ping]);
    assert_eq!(session.hb(11000), vec![Action::Ping]);
    assert_eq!(session.hb(500), vec![Action::Ping]);
    assert!(!session.closed);
}

#[test]
fn a_silent_peer_is_given_up() {
    let mut session = in_room();
    session.handle(Ok(Frame::Pong(vec![])), 1000);
    assert_eq!(
        session.hb(11001),
        vec![
            Action::Disconnect(Disconnect { id: s("u1"), room_id: Some(s("r1")) }),
            Action::Stop,
        ]
    );
    assert!(session.closed);
    assert_eq!(session.hb(20000), vec![]);
}

#[test]
fn a_silent_peer_without_identity_is_given_up() {
    let mut session = WsClientSession::new(0);
    assert_eq!(session.hb(u64::MAX), vec![Action::Stop]);
    assert!(session.closed);
}

#[test]
fn stopping_tells_the_coordinator_once() {
    let mut session = in_room();
    assert_eq!(
        session.stopping(),
        vec![Action::Disconnect(Disconnect { id: s("u1"), room_id: Some(s("r1")) })]
    );
    assert!(session.closed);
    assert_eq!(session.stopping(), vec![]);
}

#[test]
fn stopping_without_identity_tells_nobody() {
    let mut session = WsClientSession::new(0);
    assert_eq!(session.stopping(), vec![]);
    assert!(session.closed);
}

#[test]
fn a_closed_session_does_nothing() {
    let mut session = in_room();
    session.stopping();
    let closed = WsClientSession {
        id: Some(s("u1")),
        room_id: Some(s("r1")),
        hb: 0,
        closed: true,
    };
    assert_eq!(session, closed);
    assert_eq!(session.started(1), vec![]);
    assert_eq!(session.registered(Ok(s("u2"))), vec![]);
    assert_eq!(
        session.joined(Ok(RoomInit { room_id: s("r2"), snapshot: None, log: vec![] })),
        vec![]
    );
    assert_eq!(session.handle(Ok(Frame::Ping(vec![1])), 50), vec![]);
    assert_eq!(session.handle(binary(join_request(None)), 50), vec![]);
    assert_eq!(session.handle(Err(ProtocolError {}), 50), vec![]);
    assert_eq!(session.hb(999999), vec![]);
    assert_eq!(session.deliver(ServerMessage { kind: None }), vec![]);
    assert_eq!(session.undelivered(s("mailbox full")), vec![]);
    assert_eq!(session, closed);
}

#[test]
fn pushed_messages_are_written_to_the_client() {
    let session = in_room();
    let msg = ServerMessage {
        kind: Some(server_message::Kind::LeaveRoom(wsmsg::LeaveRoom { id: s("u2") })),
    };
    assert_eq!(session.deliver(msg.clone()), vec![Action::Send(msg)]);
}

#[test]
fn an_undelivered_request_is_reported_to_the_client() {
    let session = in_room();
    assert_eq!(session.undelivered(s("mailbox full")), vec![error("mailbox full")]);
}
