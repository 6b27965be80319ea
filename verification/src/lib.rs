//! A two-player networked turn-based chess client/server core: the binary
//! message codec, the duel-matching session server, the client player
//! roles, and the client connection lifecycle, each specified and verified.
//! Sockets, rendering and the chess rules engine stay outside; the library
//! works on the bytes they read and the verdicts they report.

use vstd::prelude::*;

pub mod animate;
pub mod client;
pub mod codec;
pub mod engine;
pub mod game;
pub mod messages;
pub mod player;
pub mod screen;
pub mod server;

verus! {

} // verus!
