//! Source-aware parsing, processing and validation of Docker Compose projects.

pub mod diagnostic;
pub mod interpolation;
pub mod loader;
pub mod merge;
pub mod model;
pub mod source;
pub mod text;
