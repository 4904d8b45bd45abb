//! Query engine for a version-control visualization backend: typed requests,
//! a priority scheduler, porcelain parsers and bounded caches.

pub mod api;
pub mod bench;
pub mod engine;
pub mod fixtures;
pub mod git;
pub mod index;
pub mod ipc;
pub mod text;
