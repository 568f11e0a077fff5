//! Core of a video streaming manager: stream validation and pipeline
//! description building, the stream and sink model with its tee pads, the
//! stream registry, and the WebRTC session state machine.
pub mod text;
pub mod types;
pub mod endpoint;
pub mod source;
pub mod info;
pub mod backend;
pub mod pipeline;
pub mod sink;
pub mod stream;
pub mod ids;
pub mod manager;
pub mod api;
