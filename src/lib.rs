//! Session layer of an end-to-end-encrypted chat client: the session slot,
//! the timeline classifier that turns raw room history into a message feed,
//! and the device-verification state machine.
//!
//! Everything here is plain data and decisions. Network round-trips, disk
//! access and the protocol engine itself are driven by the surrounding
//! application, which hands the outcomes of that work to these functions.
pub mod error;
pub mod text;
pub mod auth;
pub mod rooms;
pub mod verification;
pub mod state;
