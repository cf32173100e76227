//! The macOS backend's decidable parts: the global chords' constants, key
//! translation, bitmap layout, and what the backend reports about itself.
pub mod chords;
pub mod keys;
pub mod platform;
pub mod surface;
