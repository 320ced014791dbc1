//! Command schema and decoder for a CLI-driven image/video-frame rendering
//! backend.
//!
//! A single JSON document selects one of a closed set of commands (extract a
//! still frame from a video, or compose an image from layers) through a
//! `{"type": ..., "params": ...}` tagged-union convention.  [`parse_cli`]
//! decodes such a document into a typed [`CliInputCommand`], or reports a
//! [`DecodeError`].  The decoding rules are stated over a mathematical model
//! of JSON documents ([`jsontree::JsonTree`]) and proved to hold of the
//! executable decoder; serde_json performs the raw text-to-tree parse behind
//! the trusted boundary in [`jsonval`].

mod commands;
mod decode;
mod encode;
mod jsontree;
mod jsonval;
mod laws;

pub use crate::commands::{
    CliGenerateImageCommand, CliInputCommand, DecodeError, ErrorPayload, ExtractFrameCommand,
    ImageFormat, ImageLayer, JsonNumber, Layer, SolidLayer,
};
pub use crate::decode::{decode_command_value, parse_cli};
pub use crate::encode::encode_cli;
