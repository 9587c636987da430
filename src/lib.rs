//! Client library for a lighting gateway that speaks CoAP over a
//! pre-shared-key DTLS session: message framing, the retry policy of the
//! session, the device resource model, and the scene and configuration
//! rules built on top of it.

pub mod text;
pub mod light;
pub mod message;
pub mod registry;
pub mod scene;
pub mod config;
pub mod cli;
pub mod theme;
pub mod panel;
