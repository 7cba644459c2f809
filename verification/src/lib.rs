//! LocalSend peer: sessions, uploads, browser shares, the sending client and
//! the terminal interface, as verified state machines.

pub mod cli;
pub mod client;
pub mod error;
pub mod id_map;
pub mod outside;
pub mod protocol;
pub mod server;
pub mod session;
pub mod text;
pub mod text_laws;
pub mod tui;
