//! The room coordinator as a mathematical state machine.
//!
//! A state maps session ids to session records and room ids to rooms. Each
//! operation is a function from a state and the operation's inputs to the
//! next state, what is answered to the caller, and the messages to deliver.
//! Inputs that come from chance (a minted id, the pick of a default room)
//! are parameters, so every operation is a function in the strict sense.

use crate::decimal::numeral;
use crate::rejection::Rejection;
use crate::wsmsg::{BroadcastView, RoomInitView, ServerMessageView, SnapshotView};
use vstd::prelude::*;

verus! {

/// What the registry records of one session.
pub struct SessionModel {
    /// The handle by which messages reach the session's connection.
    pub addr: u64,
    /// The room the session is in, if any.
    pub room: Option<Seq<char>>,
}

/// One message on its way to one connection.
pub struct DeliveryView {
    pub addr: u64,
    pub msg: ServerMessageView,
}

/// The state of one room.
pub struct RoomModel {
    /// The members, in the order in which they entered.
    pub users: Seq<Seq<char>>,
    /// The snapshot producer, if one is assigned.
    pub snapper: Option<Seq<char>>,
    /// The latest snapshot, if any was submitted.
    pub snapshot: Option<SnapshotView>,
    /// The broadcasts that the snapshot does not cover.
    pub log: Seq<BroadcastView>,
    /// Every broadcast ever made in the room, oldest first.
    pub history: Seq<BroadcastView>,
}

/// `users` with `id` taken out; the others keep their order.
pub open spec fn without(users: Seq<Seq<char>>, id: Seq<char>) -> Seq<Seq<char>> {
    if users.contains(id) {
        users.remove(users.index_of(id))
    } else {
        users
    }
}

impl RoomModel {
    /// A room that nobody has entered yet.
    pub open spec fn empty() -> RoomModel {
        RoomModel {
            users: Seq::empty(),
            snapper: None,
            snapshot: None,
            log: Seq::empty(),
            history: Seq::empty(),
        }
    }

    /// How many broadcasts of the history the stored snapshot covers.
    pub open spec fn base(self) -> nat {
        match self.snapshot {
            Some(s) => s.next_log_index as nat,
            None => 0,
        }
    }

    /// No member occurs twice, the producer is a member, and the log is the
    /// part of the history that the snapshot does not cover.
    pub open spec fn wf(self) -> bool {
        &&& self.users.no_duplicates()
        &&& (self.snapper matches Some(p) ==> self.users.contains(p))
        &&& self.base() <= self.history.len()
        &&& self.log == self.history.skip(self.base() as int)
    }

    /// The room after `id` entered.
    pub open spec fn enter(self, id: Seq<char>) -> RoomModel {
        if self.users.contains(id) {
            self
        } else {
            RoomModel { users: self.users.push(id), ..self }
        }
    }

    /// The room after `id` left: no longer a member, and no longer producer
    /// if it was.
    pub open spec fn depart(self, id: Seq<char>) -> RoomModel {
        RoomModel {
            users: without(self.users, id),
            snapper: if self.snapper == Some(id) {
                None
            } else {
                self.snapper
            },
            ..self
        }
    }

    /// The room after one more broadcast.
    pub open spec fn append(self, b: BroadcastView) -> RoomModel {
        RoomModel { log: self.log.push(b), history: self.history.push(b), ..self }
    }

    /// The room after `id` asked to be producer: the first request wins.
    pub open spec fn elect(self, id: Seq<char>) -> RoomModel {
        if self.snapper is None {
            RoomModel { snapper: Some(id), ..self }
        } else {
            self
        }
    }

    /// Whether a snapshot can replace the stored one: it covers no less
    /// than the stored one and no more than the history holds.
    pub open spec fn accepts(self, snapshot: SnapshotView) -> bool {
        self.base() <= snapshot.next_log_index <= self.history.len()
    }

    /// The room after `snapshot` replaced the stored one: the log loses the
    /// entries that the new snapshot covers.
    pub open spec fn compact(self, snapshot: SnapshotView) -> RoomModel {
        RoomModel {
            snapshot: Some(snapshot),
            log: self.log.skip(snapshot.next_log_index - self.base()),
            ..self
        }
    }
}

/// The state of the coordinator.
pub struct ServerModel {
    /// The registered sessions, by id.
    pub sessions: Map<Seq<char>, SessionModel>,
    /// The rooms that were ever entered, by id.
    pub rooms: Map<Seq<char>, RoomModel>,
    /// The number of rooms in the default pool.
    pub pool: u8,
}

/// State and messages that an operation without an answer leaves behind.
pub struct Effect {
    pub state: ServerModel,
    pub deliveries: Seq<DeliveryView>,
}

/// What entering a room leaves behind.
pub struct Entry {
    pub state: ServerModel,
    pub init: RoomInitView,
    pub deliveries: Seq<DeliveryView>,
}

impl ServerModel {
    /// A coordinator without sessions or rooms.
    pub open spec fn empty(pool: u8) -> ServerModel {
        ServerModel { sessions: Map::empty(), rooms: Map::empty(), pool }
    }

    /// Whether `id` is a member of `room`.
    pub open spec fn is_member(self, room: Seq<char>, id: Seq<char>) -> bool {
        self.rooms.contains_key(room) && self.rooms[room].users.contains(id)
    }

    /// The pool is not empty, every room is well formed, and the sessions'
    /// records agree with the rooms' member lists: a session is a member of
    /// the room it records and of no other, and every member is a
    /// registered session.
    pub open spec fn wf(self) -> bool {
        &&& self.pool >= 1
        &&& forall|room: Seq<char>| #[trigger]
            self.rooms.contains_key(room) ==> self.rooms[room].wf()
        &&& forall|room: Seq<char>, id: Seq<char>| #[trigger]
            self.is_member(room, id) ==> self.sessions.contains_key(id) && self.sessions[id].room
                == Some(room)
        &&& forall|id: Seq<char>| #[trigger]
            self.sessions.contains_key(id) ==> (self.sessions[id].room matches Some(room)
                ==> self.is_member(room, id))
    }

    /// `msg` for every member of `room`, in the order in which they entered.
    pub open spec fn fan_out(self, room: Seq<char>, msg: ServerMessageView) -> Seq<DeliveryView> {
        if self.rooms.contains_key(room) {
            Seq::new(
                self.rooms[room].users.len(),
                |i: int| DeliveryView { addr: self.sessions[self.rooms[room].users[i]].addr, msg },
            )
        } else {
            Seq::empty()
        }
    }

    /// The room of the default pool that `pick` selects: the numeral of a
    /// number from 1 to the size of the pool.
    pub open spec fn default_room(self, pick: u8) -> Seq<char> {
        numeral((pick % self.pool + 1) as nat)
    }

    /// Registers a session under the proposed id, or under `minted` if none
    /// is proposed. A registered id keeps its room; its messages go to
    /// `addr` from now on.
    pub open spec fn register(self, proposed: Option<Seq<char>>, addr: u64, minted: Seq<char>) -> (
        ServerModel,
        Seq<char>,
    ) {
        let id = match proposed {
            Some(p) => p,
            None => minted,
        };
        let room = if self.sessions.contains_key(id) {
            self.sessions[id].room
        } else {
            None
        };
        let sessions = self.sessions.insert(id, SessionModel { addr, room });
        (ServerModel { sessions, ..self }, id)
    }

    /// Takes `id` out of `room` and tells the remaining members.
    pub open spec fn leave(self, room: Seq<char>, id: Seq<char>) -> Effect {
        if self.rooms.contains_key(room) {
            let state = ServerModel {
                rooms: self.rooms.insert(room, self.rooms[room].depart(id)),
                ..self
            };
            Effect { state, deliveries: state.fan_out(room, ServerMessageView::LeaveRoom { id }) }
        } else {
            Effect { state: self, deliveries: Seq::empty() }
        }
    }

    /// Removes the session `id`; if it was in a room, it leaves that room.
    pub open spec fn deregister(self, id: Seq<char>) -> Effect {
        if self.sessions.contains_key(id) {
            let rest = ServerModel { sessions: self.sessions.remove(id), ..self };
            match self.sessions[id].room {
                Some(room) => rest.leave(room, id),
                None => Effect { state: rest, deliveries: Seq::empty() },
            }
        } else {
            Effect { state: self, deliveries: Seq::empty() }
        }
    }

    /// The room that a session is about to enter: the requested one, or the
    /// one of the default pool that `pick` selects.
    pub open spec fn target(self, requested: Option<Seq<char>>, pick: u8) -> Seq<char> {
        match requested {
            Some(room) => room,
            None => self.default_room(pick),
        }
    }

    /// The room `room` as it is, or an empty room if nobody entered it yet.
    pub open spec fn room_or_empty(self, room: Seq<char>) -> RoomModel {
        if self.rooms.contains_key(room) {
            self.rooms[room]
        } else {
            RoomModel::empty()
        }
    }

    /// Moves the session `id` into a room. It first leaves the room it is
    /// in, if any; then it enters the target room, whose members (the
    /// newcomer among them) are told. The answer holds the target room's
    /// snapshot and log.
    pub open spec fn join(self, id: Seq<char>, requested: Option<Seq<char>>, pick: u8) -> Result<
        Entry,
        Rejection,
    > {
        if !self.sessions.contains_key(id) {
            Err(Rejection::UnknownSession)
        } else {
            let left = match self.sessions[id].room {
                Some(old_room) => self.leave(old_room, id),
                None => Effect { state: self, deliveries: Seq::empty() },
            };
            let room_id = self.target(requested, pick);
            let room = left.state.room_or_empty(room_id);
            let state = ServerModel {
                sessions: self.sessions.insert(
                    id,
                    SessionModel { addr: self.sessions[id].addr, room: Some(room_id) },
                ),
                rooms: left.state.rooms.insert(room_id, room.enter(id)),
                ..self
            };
            Ok(
                Entry {
                    state,
                    init: RoomInitView { room_id, snapshot: room.snapshot, log: room.log },
                    deliveries: left.deliveries + state.fan_out(
                        room_id,
                        ServerMessageView::JoinRoom { id },
                    ),
                },
            )
        }
    }

    /// The message that tells the session `id` of an error, on its way to
    /// the session's connection; nothing if the id is not registered.
    pub open spec fn report(self, id: Seq<char>, text: Seq<char>) -> Seq<DeliveryView> {
        if self.sessions.contains_key(id) {
            seq![
                DeliveryView {
                    addr: self.sessions[id].addr,
                    msg: ServerMessageView::ServerError { text },
                },
            ]
        } else {
            Seq::empty()
        }
    }

    /// Why an operation of the session `id` on `room` is refused, if it is.
    pub open spec fn refusal(self, room: Seq<char>, id: Seq<char>) -> Option<Rejection> {
        if !self.sessions.contains_key(id) {
            Some(Rejection::UnknownSession)
        } else if !self.is_member(room, id) {
            Some(Rejection::NotInRoom)
        } else {
            None
        }
    }

    /// Relays an operation of a member to every member of `room` (the
    /// sender among them) and appends it to the room's log.
    pub open spec fn broadcast(self, room: Seq<char>, op: BroadcastView) -> Result<
        Effect,
        Rejection,
    > {
        match self.refusal(room, op.sender()) {
            Some(rejection) => Err(rejection),
            None => {
                let state = ServerModel {
                    rooms: self.rooms.insert(room, self.rooms[room].append(op)),
                    ..self
                };
                Ok(
                    Effect {
                        state,
                        deliveries: state.fan_out(room, ServerMessageView::Broadcast(op)),
                    },
                )
            },
        }
    }

    /// Makes the member `id` the producer of `room` unless the room has
    /// one, and tells every member who the producer now is.
    pub open spec fn request_producer(self, room: Seq<char>, id: Seq<char>) -> Result<
        Effect,
        Rejection,
    > {
        match self.refusal(room, id) {
            Some(rejection) => Err(rejection),
            None => {
                let elected = self.rooms[room].elect(id);
                let state = ServerModel { rooms: self.rooms.insert(room, elected), ..self };
                Ok(
                    Effect {
                        state,
                        deliveries: state.fan_out(
                            room,
                            ServerMessageView::SetSnapper { id: elected.snapper->0 },
                        ),
                    },
                )
            },
        }
    }

    /// Stores a member's snapshot and drops from the log what it covers.
    pub open spec fn submit_snapshot(
        self,
        room: Seq<char>,
        id: Seq<char>,
        snapshot: SnapshotView,
    ) -> Result<ServerModel, Rejection> {
        match self.refusal(room, id) {
            Some(rejection) => Err(rejection),
            None => {
                if snapshot.next_log_index < self.rooms[room].base() {
                    Err(Rejection::StaleSnapshot)
                } else if snapshot.next_log_index > self.rooms[room].history.len() {
                    Err(Rejection::SnapshotAhead)
                } else {
                    Ok(
                        ServerModel {
                            rooms: self.rooms.insert(room, self.rooms[room].compact(snapshot)),
                            ..self
                        },
                    )
                }
            },
        }
    }
}

} // verus!
