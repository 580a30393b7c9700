//! Verified combinatorial core of a hologram etching toolkit.
//!
//! The crate turns triangle meshes into interpolation schedules, lays out
//! drawings, extracts circles and viewports from drawing markup, and
//! sequences the frames of reflection-arc animations.

pub mod error;
pub mod scalar;
pub mod geometry;
pub mod model;
pub mod model_laws;
pub mod cli_error;
pub mod text;
pub mod pattern;
pub mod dimension;
pub mod canvas_size;
pub mod size;
pub mod markup;
pub mod tokens;
pub mod number;
pub mod parser;
pub mod parser_laws;
pub mod path;
pub mod animation;
pub mod extent;
pub mod scriber;
pub mod visualizer;
