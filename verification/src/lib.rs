//! Portable-mode configuration and launcher decision logic for Codex++.

pub mod dialog;
pub mod flow;
pub mod ini;
pub mod json;
pub mod launch;
pub mod launcher;
pub mod paths;
pub mod portable;
pub mod recovery;
pub mod settings;
pub mod shortcut;
pub mod text;
