//! A bridge between a chat service and a line-oriented game server process.
//!
//! The library holds the decisions of the bridge: how a server log line is
//! classified, who is online, and which outputs each incoming event calls for.
//! Reading and writing the streams is left to the program around it.

pub mod classify;
pub mod event;
pub mod matching;
pub mod presence;
pub mod router;
pub mod text;
