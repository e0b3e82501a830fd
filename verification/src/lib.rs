//! A small media-conversion core: it derives an output path for a requested
//! target format, selects one of three handling strategies per format,
//! builds the argument list for an external conversion engine, interprets
//! the engine's outcome, and, for vector output, assembles a vector-container
//! document that embeds the source raster bytes unchanged.
//!
//! The host application around this library performs the file reads and
//! writes and launches the engine subprocess; every decision and every byte
//! of generated text comes from the verified functions here.

pub mod text;
pub mod error;
pub mod paths;
pub mod mime;
pub mod strategy;
pub mod engine;
pub mod embed;
pub mod pipeline;
