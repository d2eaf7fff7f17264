//! Core rules of a wallpaper switcher: the settings model, weighted choice of
//! a keyword source, acceptance of provider results, the blacklist, the
//! background service's schedule and the tray's feedback commands.

pub mod text;
pub mod config;
pub mod chance;
pub mod selection;
pub mod providers;
pub mod service;
pub mod tray;
pub mod launch;
pub mod laws;
