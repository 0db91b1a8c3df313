//! Core of a small image-generation service: validates caller input, resolves
//! a model identifier to a backend adapter, builds each backend's request,
//! and validates and decodes each backend's response into raw image bytes.
//! The surrounding HTTP server and the outbound transport stay outside; they
//! talk to this crate through plain values and the [`http::Transport`] trait.

pub mod b64;
pub mod cf;
pub mod cf_flux;
pub mod cf_sdxl;
pub mod config;
pub mod context;
pub mod errors;
pub mod factory;
pub mod http;
pub mod json;
pub mod models;
pub mod ser;
pub mod ta_flux;
