//! Talking to GitHub: release metadata, request construction and URL rewriting.

pub mod client;
pub mod proxy;
pub mod release;
pub mod tagged_asset;
