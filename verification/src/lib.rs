//! Verified core of `dra`, a tool that downloads release assets from GitHub
//! and manages the applications it installs.

pub mod civil_time;
pub mod cli;
pub mod decimal;
pub mod github;
pub mod installer;
pub mod paths;
pub mod registry;
pub mod text;
