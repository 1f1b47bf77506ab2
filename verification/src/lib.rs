//! Core of a terminal chat client: the screens and menu of the interface,
//! the conversations it shows, and the decisions it takes on each key press
//! and on each event that arrives from the messaging bridge.
//!
//! Everything here is plain data and verified transitions; terminal drawing,
//! sockets and files live in the program around this library.

pub mod chat;
pub mod app;
pub mod bridge;
pub mod config;
mod text;
pub mod ui;
pub mod laws;
