//! Rendezvous and encrypted-channel core of a two-party private messenger.
//!
//! Two authenticated users meet through a rendezvous server that only relays
//! opaque transport descriptions and hands out one symmetric key per room.
//! Afterwards they talk over a channel whose every message is sealed with an
//! authenticated cipher.
//!
//! The crate is verified with Verus. Every call into another crate stands in
//! a small function of its own, whose comment says what is taken on trust of
//! the call.
//!
//! - [`key`], [`encrypted`]: keys, and the sealing of single values.
//! - [`wire`], [`room_data`], [`message`]: the byte layout of what travels.
//! - [`store`], [`auth_table`], [`session_table`], [`room_table`]: the
//!   server's records, in memory and as a keyed store holds them.
//! - [`create_user`], [`authenticate_user`], [`create_room`],
//!   [`set_room_responder`], [`join_room`], [`get_room`]: the server's
//!   functions, with their requests, responses and errors; [`rendezvous`]:
//!   what holds from one of them to the next.
//! - [`comms`], [`link`], [`signal`]: the channel between the peers, the
//!   wait for its transport, and the transport descriptions as text.
//! - [`gui`]: the pages of the front end.
//! - [`password`], [`text`]: password hashes, and numbers as decimal text.
pub mod auth_table;
pub mod authenticate_user;
pub mod comms;
pub mod create_room;
pub mod create_user;
pub mod encrypted;
pub mod get_room;
pub mod gui;
pub mod join_room;
pub mod key;
pub mod link;
pub mod message;
pub mod password;
pub mod rendezvous;
pub mod room_data;
pub mod room_table;
pub mod session_table;
pub mod set_room_responder;
pub mod signal;
pub mod store;
pub mod text;
pub mod wire;
