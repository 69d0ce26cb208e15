//! Session engine of a terminal-oriented network relay.
//!
//! One side listens, the other connects; once connected, bytes flow both ways
//! between the remote peer and the local terminal or a spawned command.
//!
//! The engine decides and the program around it acts. A configuration
//! ([`input`]) is turned into a plan: where to bind or dial ([`endpoint`])
//! and what to wire the socket to ([`local`]). A session ([`session`]) then
//! asks for one action at a time, is told what came of it, and leaves with an
//! exit code ([`error`]); on the way it switches the terminal to raw mode and
//! back ([`termios`]) and runs the relay ([`relay`]).

pub mod endpoint;
pub mod error;
pub mod input;
pub mod local;
pub mod relay;
pub mod session;
pub mod termios;
