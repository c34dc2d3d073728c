//! A read-only reverse proxy in front of several artifact repositories.
//!
//! Each request for an artifact is put to every configured backend at once,
//! and the first backend that has the artifact answers the client. This
//! library holds the decisions of the proxy: which requests it answers by
//! itself, which request each backend gets, what a backend's answer counts
//! for, and which response the client gets in the end. Sending and
//! receiving is left to the program around it.

pub mod app;
pub mod config;
pub mod error;
pub mod outcome;
pub mod race;
pub mod race_laws;
pub mod request;
pub mod response;
pub mod text;
pub mod uri;
