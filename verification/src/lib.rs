//! Decisions of an audio playback service, with their proofs.
//!
//! One call plays one encoded audio buffer on one named output device, at a
//! given gain and speed, and returns when the audio has been played to its
//! end or the call has failed. The devices, streams, sinks and decoders
//! belong to the host; this library decides what is done with them:
//!
//! - [`device`] resolves the requested name against the enumerated devices;
//! - [`session`] takes a call from its beginning to its end, one report of
//!   the driver at a time;
//! - [`error`] names the ways in which a call fails;
//! - [`laws`] states what holds of every call.
//!
//! No state is shared between calls.

use vstd::prelude::*;

pub mod device;
pub mod error;
pub mod laws;
pub mod request;
pub mod session;

verus! {

/// Settings of the surrounding application that the services share.
pub struct AppConfiguration {
    /// The port on which the application listens.
    pub port: u16,
}

} // verus!
