//! Core of a media playback engine: a pausable shared clock, decode-side
//! delivery over bounded channels, the per-frame video scheduling policy,
//! and the latency-controlled audio feed.
//!
//! All timing is carried in whole microseconds of playback time.

pub mod audio;
pub mod channel;
pub mod clock;
pub mod pipeline;
pub mod player;
pub mod sched;
pub mod source;
pub mod timesource;
pub mod units;
