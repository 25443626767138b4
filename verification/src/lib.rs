//! Core of a terminal dashboard that summarizes a project's composition:
//! per-language file, line and byte counts, language size percentages,
//! recently modified files, and the keyboard-driven view state that decides
//! what the renderer shows.

pub mod aggregate;
pub mod classifier;
pub mod config;
pub mod percent;
pub mod present;
pub mod recency;
pub mod scan;
pub mod snapshot;
pub mod sort;
pub mod strutil;
pub mod view;
