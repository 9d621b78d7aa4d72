//! An edge icon-resizing pipeline.
//!
//! A request path such as `apple-touch-icon-120x120.png` names a square
//! touch-icon size. The library parses the path against a strict filename
//! grammar, validates the requested size, and, around a short-lived response
//! cache, turns a fetched source image into PNG bytes of exactly the requested
//! dimensions. Network retrieval and the host runtime stay outside; the
//! parsing, validation, rendering contracts and cache bookkeeping are verified.

pub mod cache;
pub mod errors;
pub mod icon;
pub mod parse;
pub mod pipeline;
pub mod render;
pub mod source;
