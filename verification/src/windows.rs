//! The Windows backend's decidable parts: key codes, buffer layout, window
//! geometry, remote-verb messages, and what the backend reports about itself.
//! None of it needs a Windows type, so all of it is checked here.
pub mod keys;
pub mod platform;
pub mod surface;
