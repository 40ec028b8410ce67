//! Buffered graphics mode for a monochrome dot-matrix display controller.
//!
//! The crate keeps one frame buffer in the controller's own layout (one bit
//! per pixel, eight vertically stacked pixels per byte, one byte per column
//! and page), maps pixel writes into it for each of the four display
//! rotations, and hands the buffer to a transport in a single windowed write.
//!
//! Every function carries a contract over a mathematical model of the data:
//! the buffer is a `Seq<u8>`, a geometry is three numbers, and what the
//! library asked of the transport is a sequence of exchanges.

pub mod addressing;
pub mod displayrotation;
pub mod displaysize;
pub mod error;
pub mod framebuffer;
pub mod interface;
pub mod mode;
pub mod pixel;
pub mod properties;
pub mod reset;

pub use crate::addressing::PackedAxis;
pub use crate::addressing::PixelAddress;
pub use crate::displayrotation::DisplayRotation;
pub use crate::displaysize::DisplaySize;
pub use crate::displaysize::BUFFER_SIZE;
pub use crate::interface::DisplayInterface;
pub use crate::properties::DisplayProperties;
pub use crate::mode::graphics::GraphicsMode;
pub use crate::pixel::Color;
pub use crate::pixel::Pixel;
pub use crate::error::Error;
pub use crate::reset::ResetAction;
pub use crate::reset::ResetSequence;
