//! A verified model of a one-shot canvas renderer: it locates a canvas
//! element through a gated acquisition chain, issues a fixed sequence of
//! path-construction and paint commands describing a triangle, and reports
//! the active fill style as a diagnostic line.

pub mod commands;
pub mod context;
pub mod renderer;
pub mod setup;
