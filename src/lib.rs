//! Layered configuration: a priority-ordered collection of value sources
//! (JSON documents, environment snapshots, absent scopes) merged into one view.
pub mod app_config;
pub mod config;
pub mod config_env;
pub mod config_json;
pub mod error;
pub mod io;
pub mod json;
pub mod laws;
pub mod logger;
pub mod paths;
pub mod priority_provider;
pub mod provider;
pub mod repo_info;
pub mod value;
