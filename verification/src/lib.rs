//! Batch resolution-and-import pipeline for a content-addressable media
//! library: classifies post URLs by platform, resolves them to direct media
//! URLs, and plans rate-limited, failure-isolated import and tagging actions
//! against an external store.

pub mod args;
pub mod config;
pub mod error;
pub mod fedi;
pub mod pipeline;
pub mod pixiv;
pub mod reddit;
pub mod text;
pub mod twitter;
pub mod urls;
