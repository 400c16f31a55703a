//! An on-device, offline chat-completion engine.
//!
//! The engine loads a quantized language model from local storage and serves
//! synchronous chat requests by running autoregressive token generation
//! against that model.  This crate holds the verified core: model discovery,
//! lifecycle state management, prompt construction, the token generation
//! state machine with its stopping conditions, streaming byte-to-text
//! decoding across multi-byte boundaries, and assembly of the structured
//! completion response with usage accounting.
//!
//! The native inference runtime and all file-system access live with the
//! embedding application, which drives the state machines defined here and
//! hands them plain values (directory listings, token counts, token byte
//! fragments).

pub mod bluetooth;
pub mod chat;
pub mod config;
pub mod decoder;
pub mod errors;
pub mod generation;
pub mod prompt;
pub mod registry;
pub mod service;
pub mod textutil;
