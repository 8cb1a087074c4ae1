//! Verified core of an installer and launcher for a dedicated Factorio server.
//!
//! The library decides; a driver performs. Nothing here touches the network,
//! the file system or a process: the driver hands in what it observed and is
//! told what to do next.

pub mod args;
pub mod error;
pub mod hash;
pub mod http;
pub mod text;
pub mod update;
pub mod user;
