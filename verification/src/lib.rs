//! Core data model for a curve-based audio-plugin UI: named preset curves
//! held in two parallel collections (beat and volume), a selection cursor,
//! the Select/Set mutation protocol that keeps them consistent, and the
//! pure adapters that turn the current state into list rows and drawable
//! screen geometry.

pub mod bank;
pub mod curve;
pub mod list;
pub mod render;
pub mod text;
