//! A typed, bounds-checked view over an image buffer filled by a camera
//! driver.
//!
//! The driver hands back an image as raw dimensions, a per-row byte padding
//! and a flat byte buffer.  This crate holds that data in [`image::Image`]
//! and exposes safe pixel access: every lookup is bounds-checked, and the
//! byte offset arithmetic is verified against the row-stride model
//! `stride = width * pixel_size + padding_x`.

pub mod image;
