//! Backends in containers: run, watched, found, reached through a proxy, and stopped.
//!
//! What is decided and computed stands here, and is proved. What is asked of the Docker engine, of a
//! network or of a file system is handed out as an action; what came of it is handed back as a reply.
pub mod acme;
pub mod config;
pub mod container;
pub mod docker;
pub mod laws;
pub mod net;
pub mod proxy;
pub mod retry;
pub mod server;
pub mod string_map;
pub mod text;
