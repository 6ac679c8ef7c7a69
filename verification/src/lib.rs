//! Decision core of a voice-channel welcome service.
//!
//! When somebody joins a voice channel, the service greets them aloud: it
//! decides whether the gateway event is a genuine join, derives the greeting
//! text and the file that caches its audio, brings the voice connection to
//! the right channel and queues the audio, then follows the track's
//! lifecycle until the queue drains.
//!
//! The library decides and never acts. Whoever drives it performs the
//! outside work that a returned [`protocol::Action`] names and reports back
//! with a [`protocol::Event`]; [`world`] says what a faithful driver will
//! then observe.

pub mod cache;
pub mod error;
pub mod filter;
pub mod greeting;
pub mod handler;
pub mod key;
pub mod protocol;
pub mod tracks;
pub mod world;
