//! Wallpaper resolution, caching and assignment rules.

pub mod cache;
pub mod category;
pub mod chance;
pub mod cli;
pub mod collections;
pub mod config;
pub mod finder;
pub mod format;
pub mod json;
pub mod picture;
pub mod state;
pub mod text;
pub mod url_supplier;
pub mod web;
