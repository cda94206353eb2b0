//! A compact weather-strip renderer.
//!
//! Given the forecast periods of a weather service's response (fetched and
//! deserialized by a thin front end), this library classifies each day
//! period's short description into an emoji, derives two-character day
//! labels, pairs high and low temperatures by position, and renders the
//! aligned output rows. It also holds the error model and the splitting of
//! a `"<lat>,<lng>"` command-line argument.

pub mod cli;
pub mod icons;
pub mod lines;
pub mod periods;
pub mod text;
