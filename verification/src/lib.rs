//! A floating translator's core: its settings, the text rules it applies
//! before and after a chat-completion request, and the decisions it makes
//! about its overlay window.

pub mod text;
pub mod settings;
pub mod hotkey;
pub mod translate;
pub mod overlay;

pub use settings::{default_font_size, default_hotkey, default_source, default_target, Settings};
