//! A terminal browser for SQLite databases: a message-driven state machine over
//! a closed set of modes, together with the session data (connection, last
//! result set, query history) that the modes hand to one another.
pub mod config;
pub mod gateway;
pub mod results;
pub mod model;
pub mod message;
pub mod viewstate;
pub mod laws;
