//! A procedural wave animation engine.
//!
//! The engine samples a point set from coherent noise once per cycle,
//! advances a frame counter through the cycle, interpolates between the
//! previous and the current point set, and turns the result into a list
//! of primitive drawing commands for one of three render modes (a
//! continuous waveform, mirrored bars, a radial solar pattern).  All of
//! the animation math is fixed-point integer arithmetic; a host maps the
//! commands onto its drawing surface and feeds noise samples in.

pub mod app;
pub mod commands;
pub mod constants;
pub mod cycle;
pub mod fixed;
pub mod graphics;
pub mod panels;
pub mod points;
pub mod text;
pub mod types;
