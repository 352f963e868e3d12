//! Core of a small command-line HTTP client: argument validation, the JSON body
//! assembled from `key=value` tokens, and the choices made when a response is
//! shown (status tone and body highlighting).

pub mod address;
pub mod error;
pub mod kv;
pub mod render;
mod text;

pub use address::parse_url;
pub use error::HttpieError;
pub use kv::{json_body_fields, parse_kv_pair, KvPair};
pub use render::{body_highlight, highlight_for, status_tone, Highlight, MediaType, Tone};
