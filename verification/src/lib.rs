//! The decisions of a small HDR image viewer, stated and proved apart from
//! the platform calls that carry them out.
//!
//! The viewer decodes one image of four half-precision channels per pixel,
//! uploads it as a texture and shows it on a compositing surface. Every
//! platform call is handed in by the caller as a closure; what is decided
//! around those calls lives here.

pub mod cli;
pub mod composition;
pub mod d3d;
pub mod geometry;
pub mod image;
pub mod window;
