//! Runs of the coordinator: sequences of requests applied one after the
//! other, and the messages they send.

use crate::invariants::{
    lemma_broadcast_wf, lemma_deregister_wf, lemma_join_wf, lemma_register_wf,
    lemma_request_producer_wf, lemma_submit_snapshot_wf,
};
use crate::model::{DeliveryView, Effect, ServerModel};
use crate::wsmsg::{BroadcastView, SnapshotView};
use vstd::prelude::*;

verus! {

/// One request to the coordinator, with everything that decides its
/// outcome.
pub enum Request {
    Register { proposed: Option<Seq<char>>, addr: u64, minted: Seq<char> },
    Deregister { id: Seq<char> },
    Join { id: Seq<char>, requested: Option<Seq<char>>, pick: u8 },
    Broadcast { room: Seq<char>, op: BroadcastView },
    RequestProducer { room: Seq<char>, id: Seq<char> },
    SubmitSnapshot { room: Seq<char>, id: Seq<char>, snapshot: SnapshotView },
}

/// The state after one request and the messages it sends. A refused
/// request changes nothing and sends nothing.
pub open spec fn step(s: ServerModel, request: Request) -> Effect {
    let idle = Effect { state: s, deliveries: Seq::empty() };
    match request {
        Request::Register { proposed, addr, minted } => Effect {
            state: s.register(proposed, addr, minted).0,
            deliveries: Seq::empty(),
        },
        Request::Deregister { id } => s.deregister(id),
        Request::Join { id, requested, pick } => match s.join(id, requested, pick) {
            Ok(entry) => Effect { state: entry.state, deliveries: entry.deliveries },
            Err(_) => idle,
        },
        Request::Broadcast { room, op } => match s.broadcast(room, op) {
            Ok(effect) => effect,
            Err(_) => idle,
        },
        Request::RequestProducer { room, id } => match s.request_producer(room, id) {
            Ok(effect) => effect,
            Err(_) => idle,
        },
        Request::SubmitSnapshot { room, id, snapshot } => match s.submit_snapshot(
            room,
            id,
            snapshot,
        ) {
            Ok(state) => Effect { state, deliveries: Seq::empty() },
            Err(_) => idle,
        },
    }
}

/// The state after a sequence of requests, applied in order.
pub open spec fn run(s: ServerModel, requests: Seq<Request>) -> ServerModel
    decreases requests.len(),
{
    if requests.len() == 0 {
        s
    } else {
        step(run(s, requests.drop_last()), requests.last()).state
    }
}

/// Every message that a sequence of requests sends, in the order of
/// sending.
pub open spec fn outbox(s: ServerModel, requests: Seq<Request>) -> Seq<DeliveryView>
    decreases requests.len(),
{
    if requests.len() == 0 {
        Seq::empty()
    } else {
        outbox(s, requests.drop_last()) + step(
            run(s, requests.drop_last()),
            requests.last(),
        ).deliveries
    }
}

/// One request keeps the coordinator well formed.
pub proof fn lemma_step_wf(s: ServerModel, request: Request)
    requires
        s.wf(),
    ensures
        step(s, request).state.wf(),
{
    match request {
        Request::Register { proposed, addr, minted } => {
            lemma_register_wf(s, proposed, addr, minted);
        },
        Request::Deregister { id } => {
            lemma_deregister_wf(s, id);
        },
        Request::Join { id, requested, pick } => {
            if s.sessions.contains_key(id) {
                lemma_join_wf(s, id, requested, pick);
            }
        },
        Request::Broadcast { room, op } => {
            lemma_broadcast_wf(s, room, op);
        },
        Request::RequestProducer { room, id } => {
            lemma_request_producer_wf(s, room, id);
        },
        Request::SubmitSnapshot { room, id, snapshot } => {
            lemma_submit_snapshot_wf(s, room, id, snapshot);
        },
    }
}

/// Every run from a well-formed state ends in a well-formed state: a
/// session is in at most one room, a room has at most one producer, who is
/// a member, and a room's log is the part of its history that its snapshot
/// does not cover.
pub proof fn lemma_run_wf(s: ServerModel, requests: Seq<Request>)
    requires
        s.wf(),
    ensures
        run(s, requests).wf(),
    decreases requests.len(),
{
    if requests.len() > 0 {
        lemma_run_wf(s, requests.drop_last());
        lemma_step_wf(run(s, requests.drop_last()), requests.last());
    }
}

} // verus!
