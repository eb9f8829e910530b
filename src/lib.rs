//! A verified core for a multi-router Model Context Protocol gateway: the
//! namespace of qualified names, the router registry, the aggregate listing
//! stores, the request dispatcher's decisions, the session registry, the
//! mailbox protocol and type boundary of sandboxed (Wasm) routers, and the
//! secrets table that those routers read from.

pub mod naming;
pub mod registry;
pub mod lists;
pub mod manager;
pub mod rpc;
pub mod dispatch;
pub mod sessions;
pub mod secrets;
pub mod watch;
pub mod convert;
pub mod capabilities;
pub mod transport_error;
pub mod init;
pub mod router;
pub mod transport;
pub mod message;
pub mod content;
pub mod wasm;
pub mod config;
