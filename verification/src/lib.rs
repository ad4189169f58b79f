//! Request routing, relaying and reply shaping for the Sentiric
//! text-to-speech gateway.
//!
//! The gateway receives streaming synthesis requests, routes each to a speech
//! engine by its voice selector (`mms:` to MMS, every other selector to
//! Coqui), answers at once as unavailable when that engine refuses, and
//! otherwise relays the engine's audio chunks back. The network, TLS, log
//! output and process start-up live in the application around this library.
pub mod app;
pub mod config;
pub mod error;
pub mod health;
pub mod logger;
pub mod proxy;
pub mod routing;
pub mod synthesis;
pub mod text;
pub mod upstream;
