//! Access layer between a Model Context Protocol host and the REST API of a
//! Canvas learning-management system.
//!
//! The library holds the configuration, the client that builds request URLs
//! and reads responses, the closed set of failures, and the answer to the
//! host's handshake. It sends nothing itself: a caller sends each request
//! through the client's transport and hands the status and body back.

pub mod client;
pub mod config;
pub mod error;
pub mod json;
pub mod response;
pub mod server;
pub mod text;
pub mod transport;

pub use client::CanvasClient;
pub use config::CanvasConfig;
pub use error::{CanvasError, ErrorKind};
pub use server::CanvasServer;
