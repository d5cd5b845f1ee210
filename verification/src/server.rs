//! The room coordinator: the single owner of every session and room.
//!
//! Each operation changes the coordinator's state in one step and returns
//! the messages that are to be delivered, each with the handle of the
//! connection it is for. Delivering them is the caller's business, so a
//! delivery that fails cannot disturb the state.

use crate::assoc::{
    assoc, lemma_assoc_at, lemma_assoc_push, lemma_assoc_remove, lemma_assoc_update,
};
use crate::chance::{is_random_uuid, mint_uid, pick_byte};
use crate::decimal::decimal;
use crate::invariants::{
    lemma_broadcast_wf, lemma_deregister_wf, lemma_join_wf, lemma_register_wf,
    lemma_request_producer_wf, lemma_submit_snapshot_wf,
};
use crate::model::{DeliveryView, Effect, Entry, RoomModel, ServerModel, SessionModel};
use crate::rejection::Rejection;
use crate::wsmsg::{
    bytes_view, client_message, clone_log, clone_snapshot, clone_text, log_view, server_message,
    snapshot_view, text_view, Broadcast, BroadcastView, LeaveRoom, RoomInit, RoomInitView,
    ServerMessage, SetSnapper,
};
use vstd::prelude::*;

verus! {

pub type RoomId = String;

pub type Uid = String;

/// The number of rooms in the default pool unless another is asked for.
pub const DEFAULT_ROOM_POOL: u8 = 5;

/// A new connection asks to be registered, under `id` if it proposes one.
/// Messages for the session are to be delivered to `addr`.
#[derive(Debug, PartialEq, Eq)]
pub struct Connect {
    pub id: Option<Uid>,
    pub addr: u64,
}

/// A connection is gone. `room_id` is the room the connection believed to
/// be in; the coordinator goes by its own record.
#[derive(Debug, PartialEq, Eq)]
pub struct Disconnect {
    pub id: Uid,
    pub room_id: Option<RoomId>,
}

/// The member `id` of `room_id` changed its brush.
#[derive(Debug, PartialEq, Eq)]
pub struct SetBrush {
    pub id: Uid,
    pub room_id: RoomId,
    pub set_brush: client_message::SetBrush,
}

/// The member `id` of `room_id` moved.
#[derive(Debug, PartialEq, Eq)]
pub struct Movement {
    pub id: Uid,
    pub room_id: RoomId,
    pub movement: client_message::Movement,
}

/// The session `id` asks to enter a room. `room_id` is the room the
/// connection believed to be in; the coordinator goes by its own record.
#[derive(Debug, PartialEq, Eq)]
pub struct JoinRoom {
    pub id: Uid,
    pub room_id: Option<RoomId>,
    pub join_room: client_message::JoinRoom,
}

/// The member `id` of `room_id` submits a snapshot of the room.
#[derive(Debug, PartialEq, Eq)]
pub struct Snapshot {
    pub id: Uid,
    pub room_id: RoomId,
    pub snapshot: crate::wsmsg::Snapshot,
}

/// The member `id` of `room_id` asks to become its snapshot producer.
#[derive(Debug, PartialEq, Eq)]
pub struct SnapperRequest {
    pub id: Uid,
    pub room_id: RoomId,
    pub snapper_request: crate::wsmsg::SnapperRequest,
}

/// One message for one connection.
#[derive(Debug, PartialEq, Eq)]
pub struct Delivery {
    pub addr: u64,
    pub msg: ServerMessage,
}

impl View for Delivery {
    type V = DeliveryView;

    open spec fn view(&self) -> DeliveryView {
        DeliveryView { addr: self.addr, msg: self.msg@ }
    }
}

/// Values of a list of deliveries.
pub open spec fn deliveries_view(deliveries: Seq<Delivery>) -> Seq<DeliveryView> {
    deliveries.map_values(|d: Delivery| d@)
}

/// Values of a list of ids.
pub open spec fn ids_view(ids: Seq<String>) -> Seq<Seq<char>> {
    ids.map_values(|id: String| id@)
}

/// Whether an operation ended as the model says: accepted with the
/// model's next state and deliveries, or refused for the model's reason
/// with the state unchanged.
pub open spec fn effect_outcome(
    expected: Result<Effect, Rejection>,
    before: ServerModel,
    after: ServerModel,
    res: Result<Vec<Delivery>, Rejection>,
) -> bool {
    match (res, expected) {
        (Ok(deliveries), Ok(effect)) => after == effect.state && deliveries_view(deliveries@)
            == effect.deliveries,
        (Err(rejection), Err(reason)) => rejection == reason && after == before,
        _ => false,
    }
}

/// Whether entering a room ended as the model says: accepted with the
/// model's next state, answer and deliveries, or refused for the model's
/// reason with the state unchanged.
pub open spec fn entry_outcome(
    expected: Result<Entry, Rejection>,
    before: ServerModel,
    after: ServerModel,
    res: Result<(RoomInit, Vec<Delivery>), Rejection>,
) -> bool {
    match (res, expected) {
        (Ok((init, deliveries)), Ok(entry)) => after == entry.state && init@ == entry.init
            && deliveries_view(deliveries@) == entry.deliveries,
        (Err(rejection), Err(reason)) => rejection == reason && after == before,
        _ => false,
    }
}

struct UserState {
    id: Uid,
    addr: u64,
    room: Option<RoomId>,
}

impl UserState {
    spec fn model(self) -> SessionModel {
        SessionModel { addr: self.addr, room: text_view(self.room) }
    }
}

struct RoomState {
    id: RoomId,
    users: Vec<Uid>,
    snapper: Option<Uid>,
    snapshot: Option<crate::wsmsg::Snapshot>,
    log: Vec<Broadcast>,
    history: Ghost<Seq<BroadcastView>>,
}

impl RoomState {
    spec fn model(self) -> RoomModel {
        RoomModel {
            users: ids_view(self.users@),
            snapper: text_view(self.snapper),
            snapshot: snapshot_view(self.snapshot),
            log: log_view(self.log@),
            history: self.history@,
        }
    }
}

/// The position of `id` in a list of ids.
fn position(ids: &Vec<String>, id: &String) -> (res: Option<usize>)
    ensures
        match res {
            Some(i) => i < ids.len() && ids_view(ids@)[i as int] == id@,
            None => !ids_view(ids@).contains(id@),
        },
{
    let mut i: usize = 0;
    while i < ids.len()
        invariant
            i <= ids.len(),
            forall|j: int| 0 <= j < i ==> ids_view(ids@)[j] != id@,
        decreases ids.len() - i,
    {
        if ids[i].eq(id) {
            return Some(i);
        }
        i = i + 1;
    }
    None
}

/// The coordinator's state: the registry of sessions and the rooms.
pub struct OverlayServer {
    sessions: Vec<UserState>,
    rooms: Vec<RoomState>,
    pool: u8,
}

impl View for OverlayServer {
    type V = ServerModel;

    closed spec fn view(&self) -> ServerModel {
        ServerModel {
            sessions: assoc(self.session_keys(), self.session_vals()),
            rooms: assoc(self.room_keys(), self.room_vals()),
            pool: self.pool,
        }
    }
}

impl OverlayServer {
    spec fn session_keys(&self) -> Seq<Seq<char>> {
        self.sessions@.map_values(|u: UserState| u.id@)
    }

    spec fn session_vals(&self) -> Seq<SessionModel> {
        self.sessions@.map_values(|u: UserState| u.model())
    }

    spec fn room_keys(&self) -> Seq<Seq<char>> {
        self.rooms@.map_values(|r: RoomState| r.id@)
    }

    spec fn room_vals(&self) -> Seq<RoomModel> {
        self.rooms@.map_values(|r: RoomState| r.model())
    }

    /// No session id and no room id is held twice.
    pub closed spec fn distinct(&self) -> bool {
        self.session_keys().no_duplicates() && self.room_keys().no_duplicates()
    }

    /// The coordinator's representation is sound and its state well formed.
    pub open spec fn wf(&self) -> bool {
        self.distinct() && self@.wf()
    }

    /// A coordinator without sessions or rooms, with the default pool.
    pub fn new() -> (res: OverlayServer)
        ensures
            res.wf(),
            res@ == ServerModel::empty(DEFAULT_ROOM_POOL),
    {
        let res = OverlayServer {
            sessions: Vec::new(),
            rooms: Vec::new(),
            pool: DEFAULT_ROOM_POOL,
        };
        assert(res@.sessions =~= Map::empty());
        assert(res@.rooms =~= Map::empty());
        res
    }

    /// A coordinator without sessions or rooms, whose default pool has
    /// `pool` rooms. There is none with an empty pool.
    pub fn with_room_pool(pool: u8) -> (res: Option<OverlayServer>)
        ensures
            res is Some <==> pool >= 1,
            res matches Some(server) ==> server.wf() && server@ == ServerModel::empty(pool),
    {
        if pool == 0 {
            None
        } else {
            let server = OverlayServer { sessions: Vec::new(), rooms: Vec::new(), pool };
            assert(server@.sessions =~= Map::empty());
            assert(server@.rooms =~= Map::empty());
            Some(server)
        }
    }

    /// Registers a session under the id that `msg` proposes, or under
    /// `minted` if it proposes none, and returns the id. If the id is
    /// registered already, the session keeps its room and its messages go
    /// to `msg.addr` from now on.
    pub fn register(&mut self, msg: Connect, minted: Uid) -> (id: Uid)
        requires
            old(self).wf(),
        ensures
            final(self).wf(),
            (final(self)@, id@) == old(self)@.register(text_view(msg.id), msg.addr, minted@),
    {
        let id = match msg.id {
            Some(proposed) => proposed,
            None => minted,
        };
        match self.find_session(&id) {
            Some(j) => {
                self.sessions[j].addr = msg.addr;
                proof {
                    old(self).lemma_session_at(j as int);
                    Self::lemma_session_changed(*old(self), *self, j as int);
                }
            },
            None => {
                self.sessions.push(UserState { id: id.clone(), addr: msg.addr, room: None });
                proof {
                    Self::lemma_session_added(*old(self), *self);
                }
            },
        }
        proof {
            lemma_register_wf(old(self)@, text_view(msg.id), msg.addr, minted@);
        }
        id
    }

    /// Registers a new connection and returns its id: the proposed one, or
    /// a fresh random one if the connection proposes none.
    pub fn connect(&mut self, msg: Connect) -> (id: Uid)
        requires
            old(self).wf(),
        ensures
            final(self).wf(),
            (final(self)@, id@) == old(self)@.register(text_view(msg.id), msg.addr, id@),
            msg.id is None ==> is_random_uuid(id@),
    {
        let minted = mint_uid();
        self.register(msg, minted)
    }

    /// Removes the session `msg.id`. If it was in a room, it leaves the
    /// room, and the notification for each remaining member is returned.
    /// An id that is not registered changes nothing.
    pub fn disconnect(&mut self, msg: Disconnect) -> (res: Vec<Delivery>)
        requires
            old(self).wf(),
        ensures
            final(self).wf(),
            final(self)@ == old(self)@.deregister(msg.id@).state,
            deliveries_view(res@) == old(self)@.deregister(msg.id@).deliveries,
    {
        proof {
            lemma_deregister_wf(old(self)@, msg.id@);
        }
        let j = match self.find_session(&msg.id) {
            None => {
                return Self::nothing();
            },
            Some(j) => j,
        };
        proof {
            self.lemma_session_at(j as int);
        }
        let user = self.sessions.remove(j);
        proof {
            Self::lemma_session_removed(*old(self), *self, j as int);
        }
        let left = match &user.room {
            Some(room) => self.find_room(room),
            None => None,
        };
        match left {
            Some(i) => {
                proof {
                    self.lemma_room_at(i as int);
                    assert forall|k: int| 0 <= k < self.rooms[i as int].users.len() && ids_view(
                        self.rooms[i as int].users@,
                    )[k] != msg.id@ implies self@.sessions.contains_key(
                        #[trigger] ids_view(self.rooms[i as int].users@)[k],
                    ) by {
                        assert(old(self)@.is_member(
                            user.room->0@,
                            ids_view(self.rooms[i as int].users@)[k],
                        ));
                    }
                }
                self.leave_room(i, &msg.id)
            },
            None => Self::nothing(),
        }
    }

    /// Relays `op` to every member of `room` (its sender among them) and
    /// appends it to the room's log. The sender is the id that `op` holds,
    /// and must be a member of the room.
    pub fn broadcast(&mut self, room: &RoomId, op: Broadcast) -> (res: Result<
        Vec<Delivery>,
        Rejection,
    >)
        requires
            old(self).wf(),
        ensures
            final(self).wf(),
            effect_outcome(old(self)@.broadcast(room@, op@), old(self)@, final(self)@, res),
    {
        let checked = match &op {
            Broadcast::SetBrush(b) => self.check_member(room, &b.id),
            Broadcast::Movement(m) => self.check_member(room, &m.id),
        };
        let i = match checked {
            Err(rejection) => {
                return Err(rejection);
            },
            Ok(i) => i,
        };
        let msg = op.to_message();
        let ghost entry = op@;
        let ghost history = self.rooms[i as int].history@.push(entry);
        self.rooms[i].log.push(op);
        self.rooms[i].history = Ghost(history);
        proof {
            old(self).lemma_room_at(i as int);
            assert(self.rooms[i as int].model().log =~= old(self).rooms[i as int].model().log.push(
                entry,
            ));
            Self::lemma_room_changed(*old(self), *self, i as int);
            lemma_broadcast_wf(old(self)@, room@, entry);
            self.lemma_members_registered(i as int);
        }
        Ok(self.send_message(i, &msg))
    }

    /// Relays a member's change of brush to its room.
    pub fn set_brush(&mut self, msg: SetBrush) -> (res: Result<Vec<Delivery>, Rejection>)
        requires
            old(self).wf(),
        ensures
            final(self).wf(),
            effect_outcome(
                old(self)@.broadcast(
                    msg.room_id@,
                    BroadcastView::SetBrush { id: msg.id@, brush: bytes_view(msg.set_brush.brush) },
                ),
                old(self)@,
                final(self)@,
                res,
            ),
    {
        let op = Broadcast::SetBrush(
            server_message::SetBrush { id: msg.id, brush: msg.set_brush.brush },
        );
        self.broadcast(&msg.room_id, op)
    }

    /// Relays a member's movement to its room.
    pub fn movement(&mut self, msg: Movement) -> (res: Result<Vec<Delivery>, Rejection>)
        requires
            old(self).wf(),
        ensures
            final(self).wf(),
            effect_outcome(
                old(self)@.broadcast(
                    msg.room_id@,
                    BroadcastView::Movement {
                        id: msg.id@,
                        point: bytes_view(msg.movement.point),
                        kind: msg.movement.kind,
                    },
                ),
                old(self)@,
                final(self)@,
                res,
            ),
    {
        let op = Broadcast::Movement(
            server_message::Movement {
                id: msg.id,
                point: msg.movement.point,
                kind: msg.movement.kind,
            },
        );
        self.broadcast(&msg.room_id, op)
    }

    /// Moves the session `msg.id` into a room: the one it asks for, or the
    /// room of the default pool that `pick` selects. It first leaves the
    /// room it is recorded in, if any. Returned are the target room's
    /// snapshot and log, and the notifications: of the leaving for the
    /// members that stay behind, then of the entering for every member of
    /// the target room, the newcomer among them.
    pub fn enter_room(&mut self, msg: JoinRoom, pick: u8) -> (res: Result<
        (RoomInit, Vec<Delivery>),
        Rejection,
    >)
        requires
            old(self).wf(),
        ensures
            final(self).wf(),
            entry_outcome(
                old(self)@.join(msg.id@, text_view(msg.join_room.room_id), pick),
                old(self)@,
                final(self)@,
                res,
            ),
    {
        let ghost start = old(self)@;
        let ghost id = msg.id@;
        let ghost requested = text_view(msg.join_room.room_id);
        let j = match self.find_session(&msg.id) {
            None => {
                return Err(Rejection::UnknownSession);
            },
            Some(j) => j,
        };
        proof {
            lemma_join_wf(start, id, requested, pick);
            self.lemma_session_at(j as int);
        }

        // Leave the room that the registry records.
        let left = match &self.sessions[j].room {
            Some(room) => self.find_room(room),
            None => None,
        };
        let mut deliveries = match left {
            Some(i) => {
                proof {
                    self.lemma_room_at(i as int);
                    self.lemma_members_registered(i as int);
                }
                self.leave_room(i, &msg.id)
            },
            None => Self::nothing(),
        };
        let ghost after_leave = self@;
        let ghost told_leave = deliveries_view(deliveries@);

        // Find the target room, or open it.
        let target = match msg.join_room.room_id {
            Some(room) => room,
            None => decimal(pick % self.pool + 1),
        };
        let i = self.open_room(&target);
        let ghost room = after_leave.room_or_empty(target@);
        let init = RoomInit {
            room_id: target.clone(),
            snapshot: clone_snapshot(&self.rooms[i].snapshot),
            log: clone_log(&self.rooms[i].log),
        };

        // Enter it.
        let ghost opened = *self;
        let present = position(&self.rooms[i].users, &msg.id);
        if present.is_none() {
            self.rooms[i].users.push(msg.id.clone());
        }
        proof {
            if present is None {
                assert(self.rooms[i as int].model().users =~= room.users.push(id));
            }
            Self::lemma_room_changed(opened, *self, i as int);
            assert(self@.rooms =~= after_leave.rooms.insert(target@, room.enter(id)));
        }

        // Record it.
        let ghost entered = *self;
        let j = match self.find_session(&msg.id) {
            None => {
                proof {
                    assert(false);
                }
                return Err(Rejection::UnknownSession);
            },
            Some(j) => j,
        };
        proof {
            self.lemma_session_at(j as int);
        }
        self.sessions[j].room = Some(target);
        proof {
            Self::lemma_session_changed(entered, *self, j as int);
            self.lemma_members_registered(i as int);
        }

        // Tell the room.
        let note = ServerMessage {
            kind: Some(server_message::Kind::JoinRoom(server_message::JoinRoom { id: msg.id })),
        };
        let mut told_join = self.send_message(i, &note);
        proof {
            assert(deliveries_view(deliveries@ + told_join@) =~= told_leave + deliveries_view(
                told_join@,
            ));
        }
        deliveries.append(&mut told_join);
        Ok((init, deliveries))
    }

    /// Moves the session `msg.id` into the room it asks for, or into a
    /// room of the default pool picked at random, as [`Self::enter_room`]
    /// does with the pick.
    pub fn join_room(&mut self, msg: JoinRoom) -> (res: Result<
        (RoomInit, Vec<Delivery>),
        Rejection,
    >)
        requires
            old(self).wf(),
        ensures
            final(self).wf(),
            exists|pick: u8|
                entry_outcome(
                    #[trigger] old(self)@.join(msg.id@, text_view(msg.join_room.room_id), pick),
                    old(self)@,
                    final(self)@,
                    res,
                ),
    {
        let pick = pick_byte();
        self.enter_room(msg, pick)
    }

    /// Stores the snapshot of a member of the room and drops from the
    /// room's log the entries that it covers. A snapshot that covers less
    /// than the stored one, or more than was ever broadcast, is refused.
    pub fn snapshot(&mut self, msg: Snapshot) -> (res: Result<(), Rejection>)
        requires
            old(self).wf(),
        ensures
            final(self).wf(),
            match (res, old(self)@.submit_snapshot(msg.room_id@, msg.id@, msg.snapshot@)) {
                (Ok(_), Ok(state)) => final(self)@ == state,
                (Err(rejection), Err(reason)) => rejection == reason && final(self)@ == old(
                    self,
                )@,
                _ => false,
            },
    {
        let i = match self.check_member(&msg.room_id, &msg.id) {
            Err(rejection) => {
                return Err(rejection);
            },
            Ok(i) => i,
        };
        proof {
            self.lemma_room_at(i as int);
        }
        let base: u64 = match &self.rooms[i].snapshot {
            Some(stored) => stored.next_log_index,
            None => 0,
        };
        let index: u64 = msg.snapshot.next_log_index;
        if index < base {
            return Err(Rejection::StaleSnapshot);
        }
        if index - base > self.rooms[i].log.len() as u64 {
            return Err(Rejection::SnapshotAhead);
        }
        let covered: usize = (index - base) as usize;
        let kept = self.rooms[i].log.split_off(covered);
        self.rooms[i].log = kept;
        self.rooms[i].snapshot = Some(msg.snapshot);
        proof {
            assert(self.rooms[i as int].model().log =~= old(self).rooms[i as int].model().log.skip(
                index - base,
            ));
            Self::lemma_room_changed(*old(self), *self, i as int);
            lemma_submit_snapshot_wf(old(self)@, msg.room_id@, msg.id@, msg.snapshot@);
        }
        Ok(())
    }

    /// Makes the member `msg.id` the snapshot producer of its room unless
    /// the room has one, and returns for every member the notification of
    /// who the producer now is.
    pub fn snapper_request(&mut self, msg: SnapperRequest) -> (res: Result<
        Vec<Delivery>,
        Rejection,
    >)
        requires
            old(self).wf(),
        ensures
            final(self).wf(),
            effect_outcome(
                old(self)@.request_producer(msg.room_id@, msg.id@),
                old(self)@,
                final(self)@,
                res,
            ),
    {
        let i = match self.check_member(&msg.room_id, &msg.id) {
            Err(rejection) => {
                return Err(rejection);
            },
            Ok(i) => i,
        };
        let current = match &self.rooms[i].snapper {
            Some(producer) => producer.clone(),
            None => {
                self.rooms[i].snapper = Some(msg.id.clone());
                msg.id
            },
        };
        proof {
            old(self).lemma_room_at(i as int);
            Self::lemma_room_changed(*old(self), *self, i as int);
            lemma_request_producer_wf(old(self)@, msg.room_id@, msg.id@);
            self.lemma_members_registered(i as int);
        }
        let note = ServerMessage {
            kind: Some(server_message::Kind::SetSnapper(SetSnapper { id: current })),
        };
        Ok(self.send_message(i, &note))
    }

    /// The message by which the session `id` is told of an error: that an
    /// operation of its own was refused, or that a message it caused could
    /// not be delivered. The state stays as it is. For an id that is not
    /// registered there is nobody to tell.
    pub fn report(&self, id: &Uid, text: String) -> (res: Vec<Delivery>)
        requires
            self.wf(),
        ensures
            deliveries_view(res@) == self@.report(id@, text@),
    {
        match self.find_session(id) {
            Some(j) => {
                proof {
                    self.lemma_session_at(j as int);
                }
                vec![
                    Delivery {
                        addr: self.sessions[j].addr,
                        msg: ServerMessage { kind: Some(server_message::Kind::ServerError(text)) },
                    },
                ]
            },
            None => Vec::new(),
        }
    }

    /// The room that the session `id` is recorded in; none if it is in no
    /// room or is not registered.
    pub fn room_of(&self, id: &Uid) -> (res: Option<RoomId>)
        requires
            self.wf(),
        ensures
            text_view(res) == if self@.sessions.contains_key(id@) {
                self@.sessions[id@].room
            } else {
                None
            },
    {
        match self.find_session(id) {
            Some(j) => {
                proof {
                    self.lemma_session_at(j as int);
                }
                clone_text(&self.sessions[j].room)
            },
            None => None,
        }
    }

    /// The handle to which the messages of the session `id` go; none if
    /// the id is not registered.
    pub fn addr_of(&self, id: &Uid) -> (res: Option<u64>)
        requires
            self.wf(),
        ensures
            res == if self@.sessions.contains_key(id@) {
                Some(self@.sessions[id@].addr)
            } else {
                None
            },
    {
        match self.find_session(id) {
            Some(j) => {
                proof {
                    self.lemma_session_at(j as int);
                }
                Some(self.sessions[j].addr)
            },
            None => None,
        }
    }

    /// The members of `room`, in the order in which they entered. A room
    /// that nobody ever entered has none.
    pub fn members(&self, room: &RoomId) -> (res: Vec<Uid>)
        requires
            self.wf(),
        ensures
            ids_view(res@) == self@.room_or_empty(room@).users,
    {
        let mut res: Vec<Uid> = Vec::new();
        if let Some(i) = self.find_room(room) {
            proof {
                self.lemma_room_at(i as int);
            }
            let mut k: usize = 0;
            while k < self.rooms[i].users.len()
                invariant
                    i < self.rooms.len(),
                    k <= self.rooms[i as int].users.len(),
                    res.len() == k,
                    forall|j: int|
                        0 <= j < k ==> (#[trigger] res@[j])@ == self.rooms[i as int].users[j]@,
                decreases self.rooms[i as int].users.len() - k,
            {
                res.push(self.rooms[i].users[k].clone());
                k = k + 1;
            }
        }
        res
    }

    /// The snapshot producer of `room`, if it has one.
    pub fn producer(&self, room: &RoomId) -> (res: Option<Uid>)
        requires
            self.wf(),
        ensures
            text_view(res) == self@.room_or_empty(room@).snapper,
    {
        match self.find_room(room) {
            Some(i) => {
                proof {
                    self.lemma_room_at(i as int);
                }
                clone_text(&self.rooms[i].snapper)
            },
            None => None,
        }
    }

    /// The state of `room` as someone entering it now would be handed it:
    /// its snapshot and its log.
    pub fn room_init(&self, room: &RoomId) -> (res: RoomInit)
        requires
            self.wf(),
        ensures
            res@ == (RoomInitView {
                room_id: room@,
                snapshot: self@.room_or_empty(room@).snapshot,
                log: self@.room_or_empty(room@).log,
            }),
    {
        match self.find_room(room) {
            Some(i) => {
                proof {
                    self.lemma_room_at(i as int);
                }
                RoomInit {
                    room_id: room.clone(),
                    snapshot: clone_snapshot(&self.rooms[i].snapshot),
                    log: clone_log(&self.rooms[i].log),
                }
            },
            None => {
                let res = RoomInit { room_id: room.clone(), snapshot: None, log: Vec::new() };
                assert(res@.log =~= Seq::empty());
                res
            },
        }
    }

    /// The number of rooms in the default pool.
    pub fn room_pool(&self) -> (res: u8)
        ensures
            res == self@.pool,
    {
        self.pool
    }

    /// No deliveries.
    fn nothing() -> (res: Vec<Delivery>)
        ensures
            deliveries_view(res@) == Seq::<DeliveryView>::empty(),
    {
        let res: Vec<Delivery> = Vec::new();
        res
    }

    /// Where the session `id` stands in the registry.
    fn find_session(&self, id: &String) -> (res: Option<usize>)
        requires
            self.distinct(),
        ensures
            res is Some <==> self@.sessions.contains_key(id@),
            res matches Some(j) ==> j < self.sessions.len() && self.sessions[j as int].id@ == id@,
    {
        let mut j: usize = 0;
        while j < self.sessions.len()
            invariant
                self.distinct(),
                j <= self.sessions.len(),
                forall|k: int| 0 <= k < j ==> self.session_keys()[k] != id@,
            decreases self.sessions.len() - j,
        {
            if self.sessions[j].id.eq(id) {
                proof {
                    self.lemma_session_at(j as int);
                }
                return Some(j);
            }
            j = j + 1;
        }
        proof {
        }
        None
    }

    /// Where the room `room` stands among the rooms.
    fn find_room(&self, room: &String) -> (res: Option<usize>)
        requires
            self.distinct(),
        ensures
            res is Some <==> self@.rooms.contains_key(room@),
            res matches Some(i) ==> i < self.rooms.len() && self.rooms[i as int].id@ == room@,
    {
        let mut i: usize = 0;
        while i < self.rooms.len()
            invariant
                self.distinct(),
                i <= self.rooms.len(),
                forall|k: int| 0 <= k < i ==> self.room_keys()[k] != room@,
            decreases self.rooms.len() - i,
        {
            if self.rooms[i].id.eq(room) {
                proof {
                    self.lemma_room_at(i as int);
                }
                return Some(i);
            }
            i = i + 1;
        }
        proof {
        }
        None
    }

    /// The position of `room`, which is opened as an empty room if nobody
    /// entered it before.
    fn open_room(&mut self, room: &String) -> (i: usize)
        requires
            old(self).distinct(),
        ensures
            final(self).distinct(),
            i < final(self).rooms.len(),
            final(self).rooms[i as int].id@ == room@,
            final(self).rooms[i as int].model() == old(self)@.room_or_empty(room@),
            final(self)@ == (ServerModel {
                rooms: old(self)@.rooms.insert(room@, old(self)@.room_or_empty(room@)),
                ..old(self)@
            }),
    {
        match self.find_room(room) {
            Some(i) => {
                proof {
                    self.lemma_room_at(i as int);
                    assert(self@.rooms =~= self@.rooms.insert(room@, self@.rooms[room@]));
                }
                i
            },
            None => {
                self.rooms.push(
                    RoomState {
                        id: room.clone(),
                        users: Vec::new(),
                        snapper: None,
                        snapshot: None,
                        log: Vec::new(),
                        history: Ghost(Seq::empty()),
                    },
                );
                proof {
                    let fresh = self.rooms[self.rooms.len() - 1].model();
                    assert(fresh.users =~= Seq::empty());
                    assert(fresh.log =~= Seq::empty());
                    Self::lemma_room_added(*old(self), *self);
                }
                self.rooms.len() - 1
            },
        }
    }

    /// The position of `room` if the session `id` is a member of it, or
    /// why an operation of `id` on `room` is refused.
    fn check_member(&self, room: &String, id: &String) -> (res: Result<usize, Rejection>)
        requires
            self.wf(),
        ensures
            match res {
                Ok(i) => {
                    &&& self@.refusal(room@, id@) is None
                    &&& i < self.rooms.len()
                    &&& self.rooms[i as int].id@ == room@
                },
                Err(rejection) => self@.refusal(room@, id@) == Some(rejection),
            },
    {
        if self.find_session(id).is_none() {
            return Err(Rejection::UnknownSession);
        }
        match self.find_room(room) {
            None => Err(Rejection::NotInRoom),
            Some(i) => {
                proof {
                    self.lemma_room_at(i as int);
                }
                match position(&self.rooms[i].users, id) {
                    None => Err(Rejection::NotInRoom),
                    Some(_) => Ok(i),
                }
            },
        }
    }

    /// Takes `id` out of the room at position `i` and returns the
    /// notification for each remaining member.
    fn leave_room(&mut self, i: usize, id: &String) -> (res: Vec<Delivery>)
        requires
            old(self).distinct(),
            i < old(self).rooms.len(),
            old(self).rooms[i as int].model().wf(),
            forall|k: int|
                0 <= k < old(self).rooms[i as int].users.len() && ids_view(
                    old(self).rooms[i as int].users@,
                )[k] != id@ ==> old(self)@.sessions.contains_key(
                    #[trigger] ids_view(old(self).rooms[i as int].users@)[k],
                ),
        ensures
            final(self).distinct(),
            final(self)@ == old(self)@.leave(old(self).rooms[i as int].id@, id@).state,
            deliveries_view(res@) == old(self)@.leave(
                old(self).rooms[i as int].id@,
                id@,
            ).deliveries,
    {
        let ghost before = old(self).rooms[i as int].model();
        let found = position(&self.rooms[i].users, id);
        if let Some(k) = found {
            self.rooms[i].users.remove(k);
        }
        let clear = match &self.rooms[i].snapper {
            Some(producer) => producer.eq(id),
            None => false,
        };
        if clear {
            self.rooms[i].snapper = None;
        }
        proof {
            old(self).lemma_room_at(i as int);
            if let Some(k) = found {
                assert(self.rooms[i as int].model().users =~= before.users.remove(k as int));
            }
            Self::lemma_room_changed(*old(self), *self, i as int);
        }
        let note = ServerMessage {
            kind: Some(server_message::Kind::LeaveRoom(LeaveRoom { id: id.clone() })),
        };
        self.send_message(i, &note)
    }

    /// `msg` for every member of the room at position `i`.
    fn send_message(&self, i: usize, msg: &ServerMessage) -> (res: Vec<Delivery>)
        requires
            self.distinct(),
            i < self.rooms.len(),
            forall|k: int|
                0 <= k < self.rooms[i as int].users.len() ==> self@.sessions.contains_key(
                    #[trigger] ids_view(self.rooms[i as int].users@)[k],
                ),
        ensures
            deliveries_view(res@) == self@.fan_out(self.rooms[i as int].id@, msg@),
    {
        let mut res: Vec<Delivery> = Vec::new();
        let mut k: usize = 0;
        proof {
            self.lemma_room_at(i as int);
        }
        let ghost wanted = self@.fan_out(self.rooms[i as int].id@, msg@);
        while k < self.rooms[i].users.len()
            invariant
                self.distinct(),
                i < self.rooms.len(),
                k <= self.rooms[i as int].users.len(),
                forall|k: int|
                    0 <= k < self.rooms[i as int].users.len() ==> self@.sessions.contains_key(
                        #[trigger] ids_view(self.rooms[i as int].users@)[k],
                    ),
                wanted.len() == self.rooms[i as int].users.len(),
                forall|k: int|
                    0 <= k < wanted.len() ==> #[trigger] wanted[k] == (DeliveryView {
                        addr: self@.sessions[ids_view(self.rooms[i as int].users@)[k]].addr,
                        msg: msg@,
                    }),
                res.len() == k,
                forall|j: int| 0 <= j < k ==> (#[trigger] res@[j])@ == wanted[j],
            decreases self.rooms[i as int].users.len() - k,
        {
            proof {
                assert(self@.sessions.contains_key(
                    ids_view(self.rooms[i as int].users@)[k as int],
                ));
            }
            match self.find_session(&self.rooms[i].users[k]) {
                Some(j) => {
                    proof {
                        self.lemma_session_at(j as int);
                    }
                    res.push(Delivery { addr: self.sessions[j].addr, msg: msg.clone() });
                },
                None => {
                    proof {
                        assert(false);
                    }
                },
            }
            k = k + 1;
        }
        res
    }

    proof fn lemma_session_at(&self, j: int)
        requires
            self.distinct(),
            0 <= j < self.sessions.len(),
        ensures
            self@.sessions.contains_key(self.sessions[j].id@),
            self@.sessions[self.sessions[j].id@] == self.sessions[j].model(),
    {
        lemma_assoc_at(self.session_keys(), self.session_vals(), j);
    }

    proof fn lemma_room_at(&self, i: int)
        requires
            self.distinct(),
            0 <= i < self.rooms.len(),
        ensures
            self@.rooms.contains_key(self.rooms[i].id@),
            self@.rooms[self.rooms[i].id@] == self.rooms[i].model(),
    {
        lemma_assoc_at(self.room_keys(), self.room_vals(), i);
    }

    /// In a well-formed coordinator every member of the room at position
    /// `i` is registered.
    proof fn lemma_members_registered(&self, i: int)
        requires
            self.wf(),
            0 <= i < self.rooms.len(),
        ensures
            forall|k: int|
                0 <= k < self.rooms[i].users.len() ==> self@.sessions.contains_key(
                    #[trigger] ids_view(self.rooms[i].users@)[k],
                ),
    {
        self.lemma_room_at(i);
        assert forall|k: int|
            0 <= k < self.rooms[i].users.len() implies self@.sessions.contains_key(
            #[trigger] ids_view(self.rooms[i].users@)[k],
        ) by {
            assert(self@.is_member(self.rooms[i].id@, ids_view(self.rooms[i].users@)[k]));
        }
    }

    /// A change of the session at position `j` that keeps its id changes
    /// the value of that session and nothing else.
    proof fn lemma_session_changed(before: OverlayServer, after: OverlayServer, j: int)
        requires
            before.distinct(),
            0 <= j < before.sessions.len(),
            after.sessions.len() == before.sessions.len(),
            forall|k: int|
                0 <= k < before.sessions.len() && k != j ==> after.sessions[k]
                    == before.sessions[k],
            after.sessions[j].id == before.sessions[j].id,
            after.rooms == before.rooms,
            after.pool == before.pool,
        ensures
            after.distinct(),
            after@ == (ServerModel {
                sessions: before@.sessions.insert(
                    before.sessions[j].id@,
                    after.sessions[j].model(),
                ),
                ..before@
            }),
    {
        assert(after.session_keys() =~= before.session_keys());
        assert(after.session_vals() =~= before.session_vals().update(
            j,
            after.sessions[j].model(),
        ));
        lemma_assoc_update(
            before.session_keys(),
            before.session_vals(),
            j,
            after.sessions[j].model(),
        );
    }

    /// A session appended under a new id is added to the state.
    proof fn lemma_session_added(before: OverlayServer, after: OverlayServer)
        requires
            before.distinct(),
            after.sessions@.len() == before.sessions@.len() + 1,
            after.sessions@.drop_last() =~= before.sessions@,
            !before@.sessions.contains_key(after.sessions@.last().id@),
            after.rooms == before.rooms,
            after.pool == before.pool,
        ensures
            after.distinct(),
            after@ == (ServerModel {
                sessions: before@.sessions.insert(
                    after.sessions@.last().id@,
                    after.sessions@.last().model(),
                ),
                ..before@
            }),
    {
        let added = after.sessions@.last();
        assert(after.session_keys() =~= before.session_keys().push(added.id@));
        assert(after.session_vals() =~= before.session_vals().push(added.model()));
        lemma_assoc_push(before.session_keys(), before.session_vals(), added.id@, added.model());
    }

    /// Taking out the session at position `j` removes it from the state.
    proof fn lemma_session_removed(before: OverlayServer, after: OverlayServer, j: int)
        requires
            before.distinct(),
            0 <= j < before.sessions.len(),
            after.sessions@ == before.sessions@.remove(j),
            after.rooms == before.rooms,
            after.pool == before.pool,
        ensures
            after.distinct(),
            after@ == (ServerModel {
                sessions: before@.sessions.remove(before.sessions[j].id@),
                ..before@
            }),
    {
        assert(after.session_keys() =~= before.session_keys().remove(j));
        assert(after.session_vals() =~= before.session_vals().remove(j));
        lemma_assoc_remove(before.session_keys(), before.session_vals(), j);
    }

    /// A change of the room at position `i` that keeps its id changes the
    /// value of that room and nothing else.
    proof fn lemma_room_changed(before: OverlayServer, after: OverlayServer, i: int)
        requires
            before.distinct(),
            0 <= i < before.rooms.len(),
            after.rooms.len() == before.rooms.len(),
            forall|k: int|
                0 <= k < before.rooms.len() && k != i ==> after.rooms[k] == before.rooms[k],
            after.rooms[i].id == before.rooms[i].id,
            after.sessions == before.sessions,
            after.pool == before.pool,
        ensures
            after.distinct(),
            after@ == (ServerModel {
                rooms: before@.rooms.insert(before.rooms[i].id@, after.rooms[i].model()),
                ..before@
            }),
    {
        assert(after.room_keys() =~= before.room_keys());
        assert(after.room_vals() =~= before.room_vals().update(i, after.rooms[i].model()));
        lemma_assoc_update(before.room_keys(), before.room_vals(), i, after.rooms[i].model());
    }

    /// A room appended under a new id is added to the state.
    proof fn lemma_room_added(before: OverlayServer, after: OverlayServer)
        requires
            before.distinct(),
            after.rooms@.len() == before.rooms@.len() + 1,
            after.rooms@.drop_last() =~= before.rooms@,
            !before@.rooms.contains_key(after.rooms@.last().id@),
            after.sessions == before.sessions,
            after.pool == before.pool,
        ensures
            after.distinct(),
            after@ == (ServerModel {
                rooms: before@.rooms.insert(
                    after.rooms@.last().id@,
                    after.rooms@.last().model(),
                ),
                ..before@
            }),
    {
        let added = after.rooms@.last();
        assert(after.room_keys() =~= before.room_keys().push(added.id@));
        assert(after.room_vals() =~= before.room_vals().push(added.model()));
        lemma_assoc_push(before.room_keys(), before.room_vals(), added.id@, added.model());
    }
}

} // verus!
