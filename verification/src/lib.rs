pub mod agent;
pub mod archive;
pub mod cache;
pub mod config;
pub mod error;
pub mod handler;
pub mod json;
pub mod launch;
pub mod session;
pub mod uri;
