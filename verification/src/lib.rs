//! Project discovery for a developer's project switcher: the merged,
//! deduplicated and recency-sorted list of projects that several sources
//! report, the cache that keeps it, and the decisions around both.

pub mod cache;
pub mod cli;
pub mod codec;
pub mod config;
pub mod models;
pub mod opener;
pub mod operations;
pub mod order;
pub mod paths;
pub mod project_manager;
pub mod scanner;
pub mod search;
pub mod text;
pub mod timestamp;
pub mod tui;
