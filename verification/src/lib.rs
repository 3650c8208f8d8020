//! The decisions of a small live streaming server.

pub mod config;
pub mod error;
pub mod handler;
pub mod headers;
pub mod heads;
pub mod laws;
pub mod media;
pub mod metadata;
pub mod queue;
pub mod reading;
pub mod request;
pub mod response;
pub mod steps;
pub mod stream;
pub mod text;
