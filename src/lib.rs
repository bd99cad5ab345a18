//! Streaming acquisition and voice-activity segmentation of 16-bit mono PCM audio.
pub mod config;
pub mod ingest;
pub mod log_builder;
pub mod models;
pub mod pcm;
pub mod preroll;
pub mod segment;
pub mod segmenter;
pub mod supervisor;
pub mod transcript;
pub mod transport;
