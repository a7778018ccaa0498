//! Core of an interactive tactics board: units on a field, annotation
//! arrows whose endpoints are free or anchored to units, and the input-mode
//! state machine that decides what a pointer gesture does.
//!
//! World coordinates are whole pixels (`SIZE_SCALING_FACTOR` pixels per
//! meter); scale factors are kept in thousandths.
pub mod arena;
pub mod arrow;
pub mod board;
pub mod control_point;
pub mod field;
pub mod geometry;
pub mod handlers;
pub mod input;
pub mod plugins;
pub mod selection;
pub mod unit;
pub mod zoom;
