//! Core of a terminal controller for a remote music-playback service.
//!
//! The library keeps one in-memory session state (what the user is looking
//! at and what is playing), and provides the verified logic that mutates it:
//! mapping raw keys to user actions, dispatching actions into optimistic
//! state changes plus remote commands, merging authoritative playback
//! snapshots back in, and driving the periodic animation ticks.  All I/O
//! (terminal, network, cache) lives outside, and talks to this library in
//! plain values.

pub mod auth;
pub mod config;
pub mod dispatch;
pub mod events;
pub mod laws;
pub mod state;
pub mod text;
