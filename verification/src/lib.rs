//! Relay of collaborative drawing operations between clients grouped into
//! rooms.
//!
//! * [`server`] holds the room coordinator, the single owner of every
//!   session and room, and [`session`] the protocol state machine of one
//!   connection. Neither does any input or output: each takes events and
//!   returns what is to be sent.
//! * [`model`] says what the coordinator does, as a mathematical state
//!   machine; [`invariants`], [`trace`] and [`laws`] prove what holds of
//!   it in every state and over every run.
//! * [`wsmsg`] holds the messages, [`rejection`] the reasons for which
//!   the coordinator refuses an operation, [`chance`] the calls that draw
//!   on randomness, [`decimal`] the names of the default rooms, and
//!   [`assoc`] the maps by which the coordinator's tables are read.

pub mod assoc;
pub mod chance;
pub mod decimal;
pub mod invariants;
pub mod laws;
pub mod model;
pub mod rejection;
pub mod server;
pub mod session;
pub mod trace;
pub mod wsmsg;
