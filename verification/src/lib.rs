//! Relay of file-change messages between watching clients and connected
//! computers: the verified core of the client, the server and the CLI.

pub mod cli;
pub mod client;
pub mod json;
pub mod protocol;
pub mod server;
