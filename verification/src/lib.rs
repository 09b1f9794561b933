//! Core of a system-wide text-expansion and hotkey engine.
//!
//! The crate holds the decisions that the input hooks take: what a key press
//! does to the replacement buffer, which rule fires, what a synthetic burst
//! emits, which hotkey combinations are down, and what the meta-key hook
//! answers. The hooks themselves, the threads and the locks live with the
//! caller, which hands every observation in as a plain value.
//!
//! Three paths read the same keyboard. The capture loop (`auto_replacement`)
//! feeds the buffer and hands matches to the sender (`sender`). The poller
//! (`hotkeys_listener`) watches for combinations. The meta-key hook
//! (`win_key_hook`) answers for one key. They meet in the shared flags
//! (`gate`) and in the key tables (`keys`). `buffer_laws` states what holds
//! over whole runs of events.
//!
//! The remaining modules hold what the window watch, the clipboard watch and
//! the settings decide once the system has answered their questions.

pub mod auto_replacement;
pub mod buffer_laws;
pub mod clipboard;
pub mod common;
pub mod filesys;
pub mod gate;
pub mod helpers;
pub mod hotkeys_listener;
pub mod hotkeys_reader;
pub mod keyboard_layouts;
pub mod keys;
pub mod processes;
pub mod rules;
pub mod sender;
pub mod settings;
pub mod text;
pub mod win_key;
pub mod win_key_hook;
