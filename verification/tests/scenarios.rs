use artplace::server::{
    Connect, Delivery, Disconnect, JoinRoom, Movement, OverlayServer, SnapperRequest, Snapshot,
};
use artplace::wsmsg;
use artplace::wsmsg::{client_message, server_message, RoomInit, ServerMessage};

fn s(text: &str) -> String {
    text.to_string()
}

fn join_request(id: &str, old: Option<&str>, room: &str) -> JoinRoom {
    JoinRoom {
        id: s(id),
        room_id: old.map(s),
        join_room: client_message::JoinRoom { room_id: Some(s(room)) },
    }
}

fn producer_request(id: &str, room: &str) -> SnapperRequest {
    SnapperRequest { id: s(id), room_id: s(room), snapper_request: wsmsg::SnapperRequest {} }
}

#[test]
fn late_joiner_gets_snapshot_and_empty_log() {
    let mut server = OverlayServer::new();
    server.connect(Connect { id: Some(s("A")), addr: 1 });
    server.connect(Connect { id: Some(s("B")), addr: 2 });
    server.connect(Connect { id: Some(s("C")), addr: 3 });

    let (init, _) = server.join_room(join_request("A", None, "r1")).unwrap();
    assert_eq!(init, RoomInit { room_id: s("r1"), snapshot: None, log: vec![] });

    let (_, sent) = server.join_room(join_request("B", None, "r1")).unwrap();
    let b_joined = ServerMessage {
        kind: Some(server_message::Kind::JoinRoom(server_message::JoinRoom { id: s("B") })),
    };
    assert_eq!(
        sent,
        vec![
            Delivery { addr: 1, msg: b_joined.clone() },
            Delivery { addr: 2, msg: b_joined },
        ]
    );

    let sent = server
        .movement(Movement {
            id: s("A"),
            room_id: s("r1"),
            movement: client_message::Movement { point: Some(vec![3, 4]), kind: 1 },
        })
        .unwrap();
    let a_moved = ServerMessage {
        kind: Some(server_message::Kind::Movement(server_message::Movement {
            id: s("A"),
            point: Some(vec![3, 4]),
            kind: 1,
        })),
    };
    assert!(sent.contains(&Delivery { addr: 2, msg: a_moved }));

    let snapshot = wsmsg::Snapshot { payload: vec![42], next_log_index: 1 };
    let res = server.snapshot(Snapshot {
        id: s("A"),
        room_id: s("r1"),
        snapshot: snapshot.clone(),
    });
    assert_eq!(res, Ok(()));
    assert!(server.room_init(&s("r1")).log.is_empty());

    let (init, _) = server.join_room(join_request("C", None, "r1")).unwrap();
    assert_eq!(init, RoomInit { room_id: s("r1"), snapshot: Some(snapshot), log: vec![] });
}

#[test]
fn producer_slot_empties_on_disconnect_and_is_taken_again() {
    let mut server = OverlayServer::new();
    server.connect(Connect { id: Some(s("A")), addr: 1 });
    server.connect(Connect { id: Some(s("B")), addr: 2 });
    server.join_room(join_request("A", None, "r1")).unwrap();
    server.join_room(join_request("B", None, "r1")).unwrap();

    server.snapper_request(producer_request("A", "r1")).unwrap();
    assert_eq!(server.producer(&s("r1")), Some(s("A")));

    server.disconnect(Disconnect { id: s("A"), room_id: Some(s("r1")) });
    assert_eq!(server.producer(&s("r1")), None);

    let sent = server.snapper_request(producer_request("B", "r1")).unwrap();
    assert_eq!(server.producer(&s("r1")), Some(s("B")));
    assert_eq!(
        sent,
        vec![Delivery {
            addr: 2,
            msg: ServerMessage {
                kind: Some(server_message::Kind::SetSnapper(wsmsg::SetSnapper { id: s("B") })),
            },
        }]
    );
}
