//! Host-side logic of a viewer for a square field that a GPU computes and a
//! window shows as a grayscale image, with panning and zooming.
//!
//! The crate touches neither the device nor the window. It lays out what is
//! uploaded and dispatched (`dispatch`, `grid`, `wire`), takes what is read
//! back into the field (`field`), turns the field into pixels (`color`),
//! turns pointer and key state into adjustments of the sampled region
//! (`viewport`, `params`) and decides what the main loop does next
//! (`mainloop`). Single-precision numbers are carried as the words of their
//! encoding (`binary32`).

pub mod binary32;
pub mod color;
pub mod dispatch;
pub mod field;
pub mod grid;
pub mod mainloop;
pub mod params;
pub mod viewport;
pub mod wire;
