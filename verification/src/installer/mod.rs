//! Installation of downloaded packages.

pub mod portable_app;
