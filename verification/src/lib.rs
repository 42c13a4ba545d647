//! Verified core of a plotter-to-immediate-mode-GUI adapter.
//!
//! A chart-plotting engine emits abstract drawing commands (pixels, lines,
//! rectangles, paths, circles, polygons, anchored text) in a logical
//! coordinate space; a host painter consumes concrete primitives in screen
//! space. This crate holds the verified translation between the two: the
//! pan/zoom view transform, color conversion, text anchor rotation and
//! placement, and background-image sizing.
//!
//! All geometry is carried in exact fixed-point arithmetic: lengths and
//! coordinates are `i64` raw values in units of 1/65536 pixel, so every
//! contract is an exact integer statement. The unverified shell that owns
//! the host painter converts these raw values to the host's floating-point
//! types at the very edge.

pub mod anchor;
pub mod backend;
pub mod color;
pub mod bg_image;
pub mod coords;
pub mod text;
pub mod transform;

pub use coords::Bounds;
pub use coords::ScreenPoint;
pub use coords::COORD_LIMIT;
pub use coords::SCALE_LIMIT;
pub use coords::SUBPIXEL;
