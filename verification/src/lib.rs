//! Playback-lifecycle coordinator for a voice-channel bot.
//!
//! The crate holds the decision core of the coordinator: the join protocol
//! that establishes a playback session and registers a track-end observer,
//! and the observers that react to track lifecycle events (periodic fade
//! tick, track end, fade completion).  Every decision is a function from
//! plain values to plain values with a verified contract; the surrounding
//! program performs the network sends and engine commands that the
//! decisions call for.

pub mod fade;
pub mod join;
pub mod notice;
pub mod observer;
pub mod session;
