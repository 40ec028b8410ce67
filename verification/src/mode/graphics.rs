//! Buffered graphics mode.
//!
//! Pixels are written into a frame buffer in memory. Nothing reaches the
//! display until [`GraphicsMode::flush`] programs a draw window and writes the
//! buffer out.

use vstd::prelude::*;

use crate::addressing::resolve;
use crate::addressing::write_bit;
use crate::displayrotation::DisplayRotation;
use crate::displaysize::lemma_byte_count_fits;
use crate::displaysize::DisplaySize;
use crate::displaysize::Geometry;
use crate::displaysize::BUFFER_SIZE;
use crate::framebuffer::blank;
use crate::framebuffer::draw_pixel;
use crate::framebuffer::draw_pixels;
use crate::framebuffer::write_pixel;
use crate::interface::DisplayInterface;
use crate::interface::Exchange;
use crate::interface::Request;
use crate::pixel::raw_value;
use crate::pixel::Pixel;
use crate::properties::DisplayProperties;

verus! {

/// The request that programs the draw window of a flush: all visible
/// columns, from the column offset on, and all rows.
pub open spec fn flush_window(geometry: Geometry) -> Request {
    Request::SetDrawArea {
        start: (geometry.column_offset as u8, 0u8),
        end: ((geometry.width + geometry.column_offset) as u8, geometry.height as u8),
    }
}

/// The request that writes out the pixel data of a flush: the leading bytes
/// of the buffer, one bit for each pixel of the panel.
pub open spec fn flush_data(geometry: Geometry, buffer: Seq<u8>) -> Request {
    Request::Draw(buffer.subrange(0, geometry.byte_count() as int))
}

/// What a flush adds to the record of exchanges, and what it returns.
///
/// The window is programmed first. If that fails, its error is returned and
/// no data is written. Otherwise the data is written and the outcome of that
/// write is returned.
pub open spec fn flushed<E>(
    before: Seq<Exchange<E>>,
    after: Seq<Exchange<E>>,
    geometry: Geometry,
    buffer: Seq<u8>,
    outcome: Result<(), E>,
) -> bool {
    let window_done = before.push(Exchange { request: flush_window(geometry), outcome: Ok(()) });
    ||| outcome is Err && after == before.push(
        Exchange { request: flush_window(geometry), outcome },
    )
    ||| after == window_done.push(Exchange { request: flush_data(geometry, buffer), outcome })
}

/// What a flush asks of the transport, in numbers: a window over the columns
/// from the column offset up to the offset plus the width and over the rows
/// from 0 up to the height, and then the leading bytes of the frame buffer,
/// an eighth of width times height of them, each as the buffer holds it.
pub proof fn lemma_flush_requests(geometry: Geometry, buffer: Seq<u8>)
    requires
        geometry.supported(),
        buffer.len() == BUFFER_SIZE,
    ensures
        flush_window(geometry) matches Request::SetDrawArea { start, end } && {
            &&& start.0 == geometry.column_offset
            &&& start.1 == 0
            &&& end.0 == geometry.column_offset + geometry.width
            &&& end.1 == geometry.height
        },
        flush_data(geometry, buffer) matches Request::Draw(bytes) && {
            &&& bytes.len() == geometry.width * geometry.height / 8
            &&& forall|i: int| 0 <= i < bytes.len() ==> bytes[i] == buffer[i]
        },
{
    lemma_byte_count_fits(geometry);
}

/// Graphics mode handler: a frame buffer in front of a display.
pub struct GraphicsMode<DI: DisplayInterface> {
    properties: DisplayProperties<DI>,
    buffer: [u8; BUFFER_SIZE],
}

impl<DI: DisplayInterface> GraphicsMode<DI> {
    /// The frame buffer: [`BUFFER_SIZE`] bytes in the controller's layout.
    pub closed spec fn buffer(&self) -> Seq<u8> {
        self.buffer@
    }

    /// The display properties that the mode was made from, as they are now.
    pub closed spec fn properties(&self) -> DisplayProperties<DI> {
        self.properties
    }

    /// The panel's geometry.
    pub open spec fn size(&self) -> DisplaySize {
        self.properties().size()
    }

    /// The rotation in force.
    pub open spec fn rotation(&self) -> DisplayRotation {
        self.properties().rotation()
    }

    /// All requests made of the transport so far, with their outcomes,
    /// oldest first.
    pub open spec fn exchanges(&self) -> Seq<Exchange<DI::Error>> {
        self.properties().exchanges()
    }

    /// What one flush makes of a mode: buffer, geometry and rotation stay,
    /// and the record of exchanges grows as [`flushed`] says.
    pub open spec fn flushes_to(&self, after: &Self, outcome: Result<(), DI::Error>) -> bool {
        &&& after.buffer() == self.buffer()
        &&& after.size() == self.size()
        &&& after.rotation() == self.rotation()
        &&& flushed(self.exchanges(), after.exchanges(), self.size()@, self.buffer(), outcome)
    }

    /// Puts a blank frame buffer in front of a display.
    pub fn new(properties: DisplayProperties<DI>) -> (mode: Self)
        ensures
            mode.buffer() == blank(),
            mode.properties() == properties,
    {
        GraphicsMode { properties, buffer: [0u8; BUFFER_SIZE] }
    }

    /// Gives up the frame buffer and hands the display properties back.
    pub fn release(self) -> (properties: DisplayProperties<DI>)
        ensures
            properties == self.properties(),
    {
        self.properties
    }

    /// Switches every pixel of the frame buffer off. The display shows the
    /// change with the next flush.
    pub fn clear(&mut self)
        ensures
            final(self).buffer() == blank(),
            final(self).properties() == old(self).properties(),
    {
        self.buffer = [0u8; BUFFER_SIZE];
    }

    /// Turns a pixel on or off. A non-zero `value` is treated as on, `0` as
    /// off. Where the pixel has no place in the frame buffer the call does
    /// nothing.
    pub fn set_pixel(&mut self, x: u32, y: u32, value: u8)
        ensures
            final(self).buffer() == write_pixel(
                old(self).buffer(),
                old(self).size()@.width,
                old(self).rotation().spec_packed_axis(),
                x as int,
                y as int,
                value != 0,
            ),
            final(self).properties() == old(self).properties(),
    {
        let (display_width, _): (u8, u8) = self.properties.get_size().dimensions();
        let display_rotation = self.properties.get_rotation();
        match resolve(display_width, display_rotation.packed_axis(), x, y) {
            Some(address) => {
                let byte: u8 = self.buffer[address.index];
                self.buffer[address.index] = write_bit(byte, address.bit, value != 0);
            },
            None => {},
        }
    }

    /// Applies one pixel of a drawing: a pixel left of or above the picture
    /// is dropped, any other is written as [`GraphicsMode::set_pixel`] does.
    pub fn draw_pixel(&mut self, pixel: Pixel)
        ensures
            final(self).buffer() == draw_pixel(
                old(self).buffer(),
                old(self).size()@.width,
                old(self).rotation().spec_packed_axis(),
                pixel,
            ),
            final(self).properties() == old(self).properties(),
    {
        if pixel.x >= 0 && pixel.y >= 0 {
            self.set_pixel(pixel.x as u32, pixel.y as u32, raw_value(pixel.color));
        }
    }

    /// Applies the pixels of a drawing in order. Pixels without a place in
    /// the frame buffer are dropped; the call cannot fail.
    pub fn draw(&mut self, pixels: &[Pixel])
        ensures
            final(self).buffer() == draw_pixels(
                old(self).buffer(),
                old(self).size()@.width,
                old(self).rotation().spec_packed_axis(),
                pixels@,
            ),
            final(self).properties() == old(self).properties(),
    {
        let ghost start = self.buffer();
        let ghost width = self.size()@.width;
        let ghost axis = self.rotation().spec_packed_axis();
        let mut done: usize = 0;
        while done < pixels.len()
            invariant
                done <= pixels.len(),
                self.buffer() == draw_pixels(start, width, axis, pixels@.take(done as int)),
                self.properties() == old(self).properties(),
                width == self.size()@.width,
                axis == self.rotation().spec_packed_axis(),
            decreases pixels.len() - done,
        {
            self.draw_pixel(pixels[done]);
            proof {
                assert(pixels@.take(done + 1).drop_last() == pixels@.take(done as int));
            }
            done += 1;
        }
        proof {
            assert(pixels@.take(done as int) == pixels@);
        }
    }

    /// Programs the controller for column addressing, in which a byte walks
    /// down a column of eight pixels, from column 0 on the left to the last
    /// column on the right.
    pub fn init(&mut self) -> (outcome: Result<(), DI::Error>)
        ensures
            final(self).buffer() == old(self).buffer(),
            final(self).size() == old(self).size(),
            final(self).rotation() == old(self).rotation(),
            final(self).exchanges() == old(self).exchanges().push(
                Exchange { request: Request::InitColumnMode, outcome },
            ),
    {
        self.properties.init_column_mode()
    }

    /// Width and height of the picture, taking the rotation into account.
    pub fn get_dimensions(&self) -> (dimensions: (u8, u8))
        ensures
            dimensions.0 == self.size()@.dimensions(self.rotation()).0,
            dimensions.1 == self.size()@.dimensions(self.rotation()).1,
    {
        self.properties.get_dimensions()
    }

    /// Sets the display rotation. The frame buffer is left as it is: what it
    /// holds is read under the new rotation from now on.
    pub fn set_rotation(&mut self, rot: DisplayRotation) -> (outcome: Result<(), DI::Error>)
        ensures
            final(self).buffer() == old(self).buffer(),
            final(self).size() == old(self).size(),
            final(self).rotation() == rot,
            final(self).exchanges() == old(self).exchanges().push(
                Exchange { request: Request::SetRotation(rot), outcome },
            ),
    {
        self.properties.set_rotation(rot)
    }

    /// Writes the frame buffer out to the display.
    ///
    /// The draw window is programmed anew before every write, so that the
    /// data lands at the origin whatever was written to the display before.
    pub fn flush(&mut self) -> (outcome: Result<(), DI::Error>)
        ensures
            old(self).flushes_to(final(self), outcome),
    {
        let display_size = self.properties.get_size();
        let (display_width, display_height): (u8, u8) = display_size.dimensions();
        let column_offset: u8 = display_size.column_offset();
        proof {
            lemma_byte_count_fits(display_size@);
        }
        let window = self.properties.set_draw_area(
            (column_offset, 0),
            (display_width + column_offset, display_height),
        );
        match window {
            Ok(()) => {},
            Err(e) => {
                return Err(e);
            },
        }
        assert(window->Ok_0 == ());
        assert((display_width as usize) * (display_height as usize) <= 255 * 255)
            by (nonlinear_arith)
            requires
                display_width <= 255,
                display_height <= 255,
        ;
        let length: usize = (display_width as usize) * (display_height as usize) / 8;
        self.properties.draw(&self.buffer[0..length])
    }

    /// Flushing twice with no pixel written in between asks the same of the
    /// transport both times: the same window and the same bytes. Where both
    /// flushes succeed, the record shows the two windows and the two data
    /// writes, alike pair by pair.
    pub proof fn lemma_flush_twice_writes_same_bytes(
        before: &Self,
        between: &Self,
        after: &Self,
        first: Result<(), DI::Error>,
        second: Result<(), DI::Error>,
    )
        requires
            before.flushes_to(between, first),
            between.flushes_to(after, second),
        ensures
            flush_window(between.size()@) == flush_window(before.size()@),
            flush_data(between.size()@, between.buffer()) == flush_data(
                before.size()@,
                before.buffer(),
            ),
            first is Ok && second is Ok ==> ({
                let n = before.exchanges().len() as int;
                let record = after.exchanges();
                &&& record.len() == n + 4
                &&& record.subrange(0, n) == before.exchanges()
                &&& record[n].request == flush_window(before.size()@)
                &&& record[n + 1].request == flush_data(before.size()@, before.buffer())
                &&& record[n + 2].request == record[n].request
                &&& record[n + 3].request == record[n + 1].request
            }),
    {
        if first is Ok && second is Ok {
            let n = before.exchanges().len() as int;
            assert(after.exchanges().subrange(0, n) =~= before.exchanges());
        }
    }
}

} // verus!
