//! Decides when a played track counts as a listen for a music-history
//! service, and keeps the listens that could not be sent.
//!
//! - `threshold`: how much unpaused playback makes a track count.
//! - `metadata`: what is known about a track and which fields a listen needs.
//! - `session`: the worker's state machine, from player events to actions.
//! - `cache`: the offline store of unsent listens and the requests that drain it.
//! - `mbid`: the identifiers that go on the wire.
use vstd::prelude::*;

pub mod cache;
pub mod mbid;
pub mod metadata;
pub mod session;
pub mod threshold;

pub use metadata::{PowerampState, TrackMetadata};
pub use session::Event;

verus! {

} // verus!
