//! Verified core of a Start menu replacement for Windows: user preferences,
//! keyboard shortcut decisions, icon parsing and the settings window layout.

pub mod geometry;
pub mod configuration;
pub mod icon;
pub mod injector;
pub mod input;
pub mod localization;
pub mod pe;
pub mod platform;
pub mod settings;
pub mod shell;
pub mod startup;
pub mod tray;
