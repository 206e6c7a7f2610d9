//! Core of a hotkey-driven prompt panel: persisted configuration (LLM provider
//! profiles, shortcut bindings, UI preferences), the shortcut registry that
//! keeps the OS hotkey table in step with the stored bindings, and the pure
//! decision logic behind each command. All I/O (windowing, clipboard,
//! keystroke injection, the LLM round trip, the settings file) stays outside;
//! the outcomes of those steps are handed in as plain values.

pub mod chord;
pub mod engine;
pub mod settings;
pub mod store;
pub mod state;
pub mod shortcut;
pub mod template;
pub mod query;
pub mod window;
pub mod dispatch;
