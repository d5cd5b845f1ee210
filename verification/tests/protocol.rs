use artplace::server::{Delivery, OverlayServer};
use artplace::session::{Action, Frame, ProtocolError, WsClientSession};
use artplace::wsmsg;
use artplace::wsmsg::{client_message, server_message, ClientMessage, ServerMessage};

/// A connection and what was written to its client.
struct Peer {
    addr: u64,
    session: WsClientSession,
    received: Vec<ServerMessage>,
    stopped: bool,
}

/// A coordinator and its connections, driven without any transport.
struct World {
    server: OverlayServer,
    peers: Vec<Peer>,
}

impl World {
    fn new() -> World {
        World { server: OverlayServer::new(), peers: Vec::new() }
    }

    fn open(&mut self) -> usize {
        let n = self.peers.len();
        let addr = 100 + n as u64;
        self.peers.push(Peer {
            addr,
            session: WsClientSession::new(0),
            received: Vec::new(),
            stopped: false,
        });
        let actions = self.peers[n].session.started(addr);
        self.perform(n, actions);
        n
    }

    fn client_sends(&mut self, n: usize, kind: client_message::Kind) {
        let frame: Result<Frame, ProtocolError> =
            Ok(Frame::Binary(Ok(ClientMessage { kind: Some(kind) })));
        let actions = self.peers[n].session.handle(frame, 1);
        self.perform(n, actions);
    }

    fn transport_fails(&mut self, n: usize) {
        let actions = self.peers[n].session.handle(Err(ProtocolError {}), 1);
        self.perform(n, actions);
    }

    fn deliver(&mut self, deliveries: Vec<Delivery>) {
        for delivery in deliveries {
            let n = self.peers.iter().position(|p| p.addr == delivery.addr).unwrap();
            let actions = self.peers[n].session.deliver(delivery.msg);
            self.perform(n, actions);
        }
    }

    fn settle(
        &mut self,
        n: usize,
        outcome: Result<Vec<Delivery>, artplace::rejection::Rejection>,
    ) {
        match outcome {
            Ok(deliveries) => self.deliver(deliveries),
            Err(rejection) => {
                let id = self.id(n);
                let told = self.server.report(&id, rejection.message());
                self.deliver(told);
            }
        }
    }

    fn perform(&mut self, n: usize, actions: Vec<Action>) {
        for action in actions {
            match action {
                Action::Send(msg) => self.peers[n].received.push(msg),
                Action::Connect(request) => {
                    let id = self.server.connect(request);
                    let next = self.peers[n].session.registered(Ok(id));
                    self.perform(n, next);
                }
                Action::JoinRoom(request) => match self.server.join_room(request) {
                    Ok((init, deliveries)) => {
                        let next = self.peers[n].session.joined(Ok(init));
                        self.perform(n, next);
                        self.deliver(deliveries);
                    }
                    Err(rejection) => {
                        let next = self.peers[n].session.undelivered(rejection.message());
                        self.perform(n, next);
                    }
                },
                Action::SetBrush(request) => {
                    let outcome = self.server.set_brush(request);
                    self.settle(n, outcome);
                }
                Action::Movement(request) => {
                    let outcome = self.server.movement(request);
                    self.settle(n, outcome);
                }
                Action::Snapshot(request) => {
                    let outcome = self.server.snapshot(request).map(|_| Vec::new());
                    self.settle(n, outcome);
                }
                Action::SnapperRequest(request) => {
                    let outcome = self.server.snapper_request(request);
                    self.settle(n, outcome);
                }
                Action::Disconnect(request) => {
                    let deliveries = self.server.disconnect(request);
                    self.deliver(deliveries);
                }
                Action::Stop => self.peers[n].stopped = true,
                Action::Ping | Action::Pong(_) | Action::Close(_) => {}
            }
        }
    }

    fn id(&self, n: usize) -> String {
        self.peers[n].session.id.clone().unwrap()
    }
}

fn join(room: &str) -> client_message::Kind {
    client_message::Kind::JoinRoom(client_message::JoinRoom { room_id: Some(room.to_string()) })
}

fn movement(point: u8) -> client_message::Kind {
    client_message::Kind::Movement(client_message::Movement { point: Some(vec![point]), kind: 0 })
}

fn kinds(peer: &Peer) -> Vec<&server_message::Kind> {
    peer.received.iter().map(|m| m.kind.as_ref().unwrap()).collect()
}

#[test]
fn sessions_and_coordinator_play_the_protocol() {
    let mut world = World::new();
    let a = world.open();
    let b = world.open();
    let (id_a, id_b) = (world.id(a), world.id(b));
    assert_ne!(id_a, id_b);
    assert_eq!(
        world.peers[a].received,
        vec![ServerMessage {
            kind: Some(server_message::Kind::SetId(wsmsg::SetId { id: id_a.clone() })),
        }]
    );

    world.client_sends(a, join("r1"));
    world.client_sends(b, join("r1"));
    assert_eq!(world.peers[a].session.room_id, Some("r1".to_string()));
    assert_eq!(world.server.room_of(&id_a), Some("r1".to_string()));
    assert_eq!(world.server.members(&"r1".to_string()), vec![id_a.clone(), id_b.clone()]);

    world.client_sends(a, movement(1));
    world.client_sends(b, movement(2));
    let moved = |id: &String, point: u8| {
        server_message::Kind::Movement(server_message::Movement {
            id: id.clone(),
            point: Some(vec![point]),
            kind: 0,
        })
    };
    let seen_by_b = kinds(&world.peers[b]);
    assert_eq!(seen_by_b.len(), 5);
    assert!(matches!(seen_by_b[0], server_message::Kind::SetId(_)));
    assert!(matches!(seen_by_b[1], server_message::Kind::RoomInit(_)));
    assert!(matches!(seen_by_b[2], server_message::Kind::JoinRoom(_)));
    assert_eq!(seen_by_b[3], &moved(&id_a, 1));
    assert_eq!(seen_by_b[4], &moved(&id_b, 2));
    let seen_by_a = kinds(&world.peers[a]);
    assert_eq!(seen_by_a[seen_by_a.len() - 2], &moved(&id_a, 1));
    assert_eq!(seen_by_a[seen_by_a.len() - 1], &moved(&id_b, 2));

    world.transport_fails(a);
    assert!(world.peers[a].stopped);
    assert_eq!(world.server.addr_of(&id_a), None);
    assert_eq!(world.server.members(&"r1".to_string()), vec![id_b.clone()]);
    assert_eq!(
        world.peers[b].received.last().unwrap().kind,
        Some(server_message::Kind::LeaveRoom(wsmsg::LeaveRoom { id: id_a }))
    );
}

#[test]
fn operations_before_joining_never_reach_the_coordinator() {
    let mut world = World::new();
    let a = world.open();
    world.client_sends(a, movement(1));
    world.client_sends(a, client_message::Kind::SnapperRequest(wsmsg::SnapperRequest {}));
    let received = &world.peers[a].received;
    assert_eq!(received.len(), 3);
    for msg in &received[1..] {
        assert_eq!(
            msg.kind,
            Some(server_message::Kind::ServerError("not in a room".to_string()))
        );
    }
    assert_eq!(world.server.room_of(&world.id(a)), None);
}

#[test]
fn a_refused_snapshot_is_reported_to_the_submitter() {
    let mut world = World::new();
    let a = world.open();
    world.client_sends(a, join("r1"));
    world.client_sends(
        a,
        client_message::Kind::Snapshot(wsmsg::Snapshot { payload: vec![1], next_log_index: 3 }),
    );
    assert_eq!(
        world.peers[a].received.last().unwrap().kind,
        Some(server_message::Kind::ServerError(
            "snapshot is ahead of the room's history".to_string()
        ))
    );
    assert_eq!(world.server.room_init(&"r1".to_string()).snapshot, None);
}
