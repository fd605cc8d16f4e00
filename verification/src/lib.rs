//! Core of a looping bitmap slideshow: an image loader that turns raw file
//! contents into a sequence of equally sized bitmaps, a cycle manager that
//! advances a wrapping cursor through that sequence one tick at a time, and
//! the frame-interval computation that paces the presentation loop.
//!
//! File reading, the display surface and the sleep between ticks live with
//! the embedding program; this crate holds the decisions and their proofs.

pub mod codec;
pub mod error;
pub mod image_manager;
