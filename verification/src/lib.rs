//! Verified core of the ONYX group server: configuration, the connection hub,
//! the WebSocket session logic and the small text rules used by the admin tools.

pub mod assoc;
pub mod cli;
pub mod config;
pub mod group;
pub mod hub;
pub mod ids;
pub mod info;
pub mod menu;
pub mod hub_laws;
pub mod protocol;
pub mod seqs;
pub mod session;
pub mod session_laws;
pub mod text;
pub mod updater;
