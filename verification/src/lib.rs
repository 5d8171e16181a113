//! Verified core of waylyrics: lyric cache decisions, cache paths, label and
//! appearance rules, and the portable launcher's path handling.

pub mod actions;
pub mod appearance;
pub mod cache_flow;
pub mod cache_path;
pub mod filter;
pub mod lyric;
pub mod passthrough;
pub mod portable;
pub mod text;
pub mod theme;
