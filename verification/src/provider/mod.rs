//! Sessions as a transport for JSON-RPC clients.

pub mod dispatch;
pub mod jsonrpc;
pub mod packet;

pub use dispatch::Transport;
