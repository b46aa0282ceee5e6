//! Coordination logic of an audio playback pool: a sound store, a registry of
//! playback streams, the handling of each request to the pool, and the state
//! machine that drives one stream's playback session.

pub mod message;
pub mod pool;
pub mod worker;
