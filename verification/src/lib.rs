//! Audio feedback for raw input events.
//!
//! The library holds the verified core of a small feedback daemon: it
//! classifies device events, routes them to audio cues subject to a
//! fullscreen gate and a scroll-burst aggregator, computes the
//! drift-compensated sleep of the two polling loops, resolves audio asset
//! paths, and selects the external fullscreen-oracle command.

pub mod assets;
pub mod cues;
pub mod device;
pub mod dispatch;
pub mod oracle;
pub mod scroll;
pub mod timing;
