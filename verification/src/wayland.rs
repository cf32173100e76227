//! The Wayland backend's decidable parts: key names, the first window size,
//! the input method's double-buffered events, requests into a running
//! overlay, and what a registry probe shows.
pub mod ime;
pub mod keys;
pub mod magnifier;
pub mod overlay;
pub mod platform;
pub mod sizing;
