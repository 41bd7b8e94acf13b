//! Externalization decision engine for a bundler: decides, for each module
//! request seen while building a dependency graph, whether the module is
//! bundled or left external and referenced at runtime.

pub mod config;
pub mod decision;
pub mod edge;
pub mod external_path;
pub mod handler;
pub mod laws;
pub mod patterns;
pub mod plugin;
pub mod resolve;
pub mod text;
