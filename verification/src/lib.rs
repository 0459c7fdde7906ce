//! A library for an interactive terminal file-system browser: directory
//! listings, pattern matching, search, permission and ownership editing,
//! dual-pane browsing, bookmarks and previews, modelled as pure state
//! machines over plain data so that every transition can be verified.

pub mod bookmarks;
pub mod keys;
pub mod models;
pub mod listing;
pub mod managers;
pub mod navigator;
pub mod permissions;
pub mod preview;
pub mod search;
pub mod split_pane;
pub mod text;
pub mod ui;
pub mod utils;
