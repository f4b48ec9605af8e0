//! Device-session and access-control core of a LAN media controller for
//! networked speakers: session setup, the request guard, command dispatch
//! and the resolution of served files.

pub mod net;
pub mod session;
pub mod environment;
pub mod access;
pub mod paths;
pub mod command;
pub mod views;
