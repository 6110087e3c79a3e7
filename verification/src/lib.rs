//! Canned error pages for a gateway's default backend: a small template
//! engine, the registry of error pages, and the dispatcher that maps a request
//! path to a ready-made response.

pub mod assets;
pub mod config;
pub mod errors;
pub mod server;
pub mod template;
pub mod text;
