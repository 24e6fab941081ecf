//! Playit agent library: the account, claim, tunnel, secret, control-channel and
//! service-protocol logic of the playit agent, stated in contracts and proved.
//!
//! Nothing here opens a socket, reads a file or sleeps. The functions take plain
//! values, decide, and hand plain values back to the program that performs them.

pub mod account;
pub mod api;
pub mod auth;
pub mod claim;
pub mod cli;
pub mod client;
pub mod control;
pub mod daemon;
pub mod error;
pub mod handle;
pub mod http_client;
pub mod ids;
pub mod ipc;
pub mod ipc_server;
pub mod linux;
pub mod model;
pub mod options;
pub mod outside;
pub mod paths;
pub mod runtime;
pub mod secret;
pub mod session;
pub mod sid;
pub mod state;
pub mod text;
pub mod tunnels;
pub mod unix;
pub mod web_api;
