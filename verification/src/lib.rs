//! A verified core for a boss/item tracker overlay: a fixed set of two-state
//! toggle buttons, each drawn as one of a pair of bitmaps chosen by the
//! button's current check state, with a right-click menu that resets every
//! button at once.
//!
//! The windowing host (widget creation, input delivery, paint scheduling) and
//! the bitmap loader are outside collaborators: they hand plain values in and
//! take draw commands back. Everything that decides — which image a paint
//! request selects, what a menu choice does, when startup must fail — lives
//! here, with contracts.

pub mod assets;
pub mod dispatch;
pub mod geometry;
pub mod host_model;
pub mod paint;
pub mod table;
