//! Tracks the audio sources of a desktop audio server and streams one of them.
//!
//! The crate keeps a stable logical handle on an application whose sink input
//! is recreated whenever the application restarts, normalises and buffers the
//! captured audio, and meters its level.

pub mod client;
pub mod config;
pub mod format;
pub mod interface;
pub mod kind;
pub mod laws;
pub mod meter;
pub mod name;
pub mod order;
pub mod ring;
pub mod selector;
pub mod sink_input;
pub mod source;
pub mod status;
pub mod stream;
pub mod system;
pub mod text;
pub mod voice;
