//! Pixel, settings and pipeline logic of the ntsc-rs Android bridge.

pub mod descriptors;
pub mod engine;
pub mod json;
pub mod jsondoc;
pub mod packets;
pub mod params;
pub mod pixels;
pub mod plan;
pub mod planes;
pub mod player;
pub mod render;
pub mod status;
pub mod text;
