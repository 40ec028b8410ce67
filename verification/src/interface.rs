//! The transport to the display controller, and the record of its use.

use vstd::prelude::*;

use crate::displayrotation::DisplayRotation;

verus! {

/// A transport to the display controller: whatever knows how to put command
/// bytes and pixel bytes on the bus.
///
/// The library is generic over the transport and proves nothing of it. Each
/// method may fail with the transport's own error, which the library hands
/// on to its caller untouched.
pub trait DisplayInterface {
    /// What a failed transfer reports.
    type Error;

    /// Programs the controller for column addressing, in which a byte walks
    /// down eight pixels of one column and the next byte is one column on.
    fn init_column_mode(&mut self) -> Result<(), Self::Error>;

    /// Tells the controller how the picture is turned.
    fn set_rotation(&mut self, rotation: DisplayRotation) -> Result<(), Self::Error>;

    /// Programs the window that the next pixel data will fill: columns from
    /// `start.0` up to, not including, `end.0`, and rows from `start.1` up
    /// to, not including, `end.1`.
    fn set_draw_area(&mut self, start: (u8, u8), end: (u8, u8)) -> Result<(), Self::Error>;

    /// Writes pixel data into the window programmed last.
    fn draw(&mut self, buffer: &[u8]) -> Result<(), Self::Error>;
}

/// One thing asked of the transport.
pub enum Request {
    /// Program column addressing.
    InitColumnMode,
    /// Turn the picture.
    SetRotation(DisplayRotation),
    /// Program a draw window.
    SetDrawArea {
        /// First column and first row.
        start: (u8, u8),
        /// Column and row just past the last.
        end: (u8, u8),
    },
    /// Write these pixel bytes.
    Draw(Seq<u8>),
}

/// A request together with what the transport answered.
pub struct Exchange<E> {
    /// What was asked.
    pub request: Request,
    /// What came back.
    pub outcome: Result<(), E>,
}

} // verus!
