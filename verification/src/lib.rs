//! A chat relay: named clients sign in to a server and exchange direct and
//! broadcast messages, each over a reliable stream or as a datagram.
//!
//! This library holds the rules of the relay: the protocol types, the
//! server's peer registry and session, the client's driver, and the reading
//! of commands and arguments. Sockets, tasks, the terminal and the encoding
//! of values belong to the program around it.

pub mod client;
pub mod common;
pub mod server;
pub mod text;
