//! Annotation overlay logic: identities, documents, undo history, the mode
//! coordinator, key bindings, and the platform vocabulary, with the rules each
//! of them keeps stated as contracts.
pub mod capability;
pub mod command;
pub mod control;
pub mod display_server;
pub mod doctor;
pub mod document;
pub mod draw_args;
pub mod error;
pub mod id;
pub mod history;
pub mod keymap;
pub mod macos;
pub mod limits;
pub mod modes;
pub mod session;
pub mod object;
pub mod output;
pub mod paths;
pub mod platform_error;
pub mod press;
pub mod route;
pub mod settings;
pub mod style;
pub mod text;
pub mod tool;
pub mod verbs;
pub mod wayland;
pub mod windows;
