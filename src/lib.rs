//! Core of a firmware-resident boot loader: key decoding, a line editor with a
//! scrolling viewport, the boot-option command-line composer, the menu prompt,
//! the boot-target dispatcher and the configuration resolver.
//!
//! Everything that talks to the firmware stays outside this crate; the
//! functions here take plain values and return decisions.

pub mod ansi;
pub mod composer;
pub mod config;
pub mod console;
pub mod dispatch;
pub mod editor;
pub mod error;
pub mod key;
pub mod menu;
pub mod serial;
pub mod text;
