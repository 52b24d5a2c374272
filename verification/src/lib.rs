//! Event-to-sound dispatch engine for a mechanical keyboard/mouse
//! acoustics simulator.
//!
//! The library holds the verified core: the per-key debounce state
//! machine that decides whether a hardware event triggers playback,
//! the uniform sample-selection policy, and the configuration
//! resolution rules. Audio output, the global input hook and file
//! I/O live outside the library and hand it plain values.

pub mod config;
pub mod events;
pub mod dispatch;
pub mod laws;
pub mod pools;
