//! Felt-board lettering: a phrase laid out as raised letters on a tiled
//! texture, optionally framed by a mitred border.
//!
//! Everything here works on integers. Pixel coverage is a byte, pen positions
//! are whole subpixel units, and the row height is an exact ratio, so every
//! contract can be stated over mathematical integers.

pub mod color;
pub mod raster;
pub mod tiling;
pub mod border;
pub mod glyph;
pub mod lettering;
pub mod render;
pub mod board;

pub use crate::board::{Background, Board, Border, LetteredBoard, TextureError};
pub use crate::color::{Color, Rgba8};
pub use crate::glyph::{Glyph, Letter, Point, Rect, Sample};
pub use crate::lettering::{Cursor, Font, Lettering, Line, RowHeight, Scale};
pub use crate::raster::Raster;
