//! The frame buffer as a sequence of bytes, and what pixel writes do to it.

use vstd::prelude::*;

use crate::addressing::bit_is_set;
use crate::addressing::lemma_with_bit;
use crate::addressing::spec_byte_index;
use crate::addressing::spec_resolve;
use crate::addressing::spec_resolves;
use crate::addressing::with_bit;
use crate::addressing::PackedAxis;
use crate::displayrotation::DisplayRotation;
use crate::displaysize::Geometry;
use crate::displaysize::BUFFER_SIZE;
use crate::pixel::Pixel;

verus! {

/// The buffer with every pixel off.
pub open spec fn blank() -> Seq<u8> {
    Seq::new(BUFFER_SIZE as nat, |i: int| 0u8)
}

/// The buffer after the pixel at `(x, y)` was switched on or off: the one
/// bit that holds the pixel is written, or nothing at all where the pixel
/// has no place in the buffer.
pub open spec fn write_pixel(
    buffer: Seq<u8>,
    width: nat,
    axis: PackedAxis,
    x: int,
    y: int,
    on: bool,
) -> Seq<u8> {
    match spec_resolve(width, axis, x, y) {
        Some(address) => buffer.update(
            address.index as int,
            with_bit(buffer[address.index as int], address.bit, on),
        ),
        None => buffer,
    }
}

/// Whether the buffer shows the pixel at `(x, y)` as on. A pixel without a
/// place in the buffer is off.
pub open spec fn pixel_is_on(
    buffer: Seq<u8>,
    width: nat,
    axis: PackedAxis,
    x: int,
    y: int,
) -> bool {
    match spec_resolve(width, axis, x, y) {
        Some(address) => bit_is_set(buffer[address.index as int], address.bit),
        None => false,
    }
}

/// The buffer after one pixel of a drawing was applied.
pub open spec fn draw_pixel(
    buffer: Seq<u8>,
    width: nat,
    axis: PackedAxis,
    pixel: Pixel,
) -> Seq<u8> {
    write_pixel(buffer, width, axis, pixel.x as int, pixel.y as int, pixel.color.raw() != 0)
}

/// The buffer after the pixels of a drawing were applied one after the
/// other, the first of the sequence first.
pub open spec fn draw_pixels(
    buffer: Seq<u8>,
    width: nat,
    axis: PackedAxis,
    pixels: Seq<Pixel>,
) -> Seq<u8>
    decreases pixels.len(),
{
    if pixels.len() == 0 {
        buffer
    } else {
        draw_pixel(
            draw_pixels(buffer, width, axis, pixels.drop_last()),
            width,
            axis,
            pixels.last(),
        )
    }
}

/// Every pixel of the picture has a place in the frame buffer, whatever the
/// rotation, as long as the geometry is supported.
pub proof fn lemma_pixel_of_picture_resolves(
    geometry: Geometry,
    rotation: DisplayRotation,
    x: int,
    y: int,
)
    requires
        geometry.supported(),
        geometry.contains(rotation, x, y),
    ensures
        spec_resolves(geometry.width, rotation.spec_packed_axis(), x, y),
{
    let axis = rotation.spec_packed_axis();
    let width = geometry.width as int;
    let pages = geometry.pages() as int;
    let page = axis.packed(x, y) / 8;
    let column = axis.column(x, y);
    assert(0 <= page < pages);
    assert(page * width + column < pages * width) by (nonlinear_arith)
        requires
            0 <= page < pages,
            0 <= column < width,
    ;
}

/// Two pixels that share a bit of the frame buffer are one and the same.
pub proof fn lemma_distinct_pixels_distinct_bits(
    width: nat,
    axis: PackedAxis,
    x1: int,
    y1: int,
    x2: int,
    y2: int,
)
    requires
        spec_resolves(width, axis, x1, y1),
        spec_resolves(width, axis, x2, y2),
        spec_resolve(width, axis, x1, y1) == spec_resolve(width, axis, x2, y2),
    ensures
        x1 == x2,
        y1 == y2,
{
    let w = width as int;
    let first_page = axis.packed(x1, y1) / 8;
    let second_page = axis.packed(x2, y2) / 8;
    let first_column = axis.column(x1, y1);
    let second_column = axis.column(x2, y2);
    let first = spec_resolve(width, axis, x1, y1)->Some_0;
    let second = spec_resolve(width, axis, x2, y2)->Some_0;
    assert(first.index == spec_byte_index(width, axis, x1, y1));
    assert(second.index == spec_byte_index(width, axis, x2, y2));
    assert(first_page * w + first_column == second_page * w + second_column);
    assert(first_page == second_page && first_column == second_column) by (nonlinear_arith)
        requires
            first_page * w + first_column == second_page * w + second_column,
            0 <= first_column < w,
            0 <= second_column < w,
    ;
    assert(first.bit == axis.packed(x1, y1) % 8);
    assert(second.bit == axis.packed(x2, y2) % 8);
}

/// Writing a pixel of the picture and reading it back gives what was
/// written: on after it was switched on, off after it was then switched
/// off. Every other pixel reads as before, and so does every other bit of
/// the buffer, those that share the pixel's byte included. The buffer keeps
/// its length.
pub proof fn lemma_written_pixel_reads_back(
    buffer: Seq<u8>,
    geometry: Geometry,
    rotation: DisplayRotation,
    x: int,
    y: int,
    on: bool,
)
    requires
        buffer.len() == BUFFER_SIZE,
        geometry.supported(),
        geometry.contains(rotation, x, y),
    ensures
        ({
            let width = geometry.width;
            let axis = rotation.spec_packed_axis();
            let written = write_pixel(buffer, width, axis, x, y, on);
            let address = spec_resolve(width, axis, x, y);
            &&& address is Some
            &&& written.len() == buffer.len()
            &&& pixel_is_on(written, width, axis, x, y) == on
            &&& pixel_is_on(write_pixel(buffer, width, axis, x, y, true), width, axis, x, y)
            &&& !pixel_is_on(
                write_pixel(write_pixel(buffer, width, axis, x, y, true), width, axis, x, y, false),
                width,
                axis,
                x,
                y,
            )
            &&& forall|i: int, k: u8|
                0 <= i < BUFFER_SIZE && k < 8 && !(i == address->Some_0.index && k
                    == address->Some_0.bit) ==> #[trigger] bit_is_set(written[i], k) == bit_is_set(
                    buffer[i],
                    k,
                )
            &&& forall|x2: int, y2: int|
                !(x2 == x && y2 == y) ==> #[trigger] pixel_is_on(written, width, axis, x2, y2)
                    == pixel_is_on(buffer, width, axis, x2, y2)
        }),
{
    let width = geometry.width;
    let axis = rotation.spec_packed_axis();
    lemma_pixel_of_picture_resolves(geometry, rotation, x, y);
    let address = spec_resolve(width, axis, x, y)->Some_0;
    let index = address.index as int;
    assert(address.bit < 8);
    assert(0 <= index < BUFFER_SIZE);
    lemma_write_then_read(buffer, width, axis, x, y, on);
    lemma_write_then_read(buffer, width, axis, x, y, true);
    let lit = write_pixel(buffer, width, axis, x, y, true);
    lemma_write_then_read(lit, width, axis, x, y, false);
    let written = write_pixel(buffer, width, axis, x, y, on);
    assert forall|i: int, k: u8|
        0 <= i < BUFFER_SIZE && k < 8 && !(i == address.index && k == address.bit)
        implies #[trigger] bit_is_set(written[i], k) == bit_is_set(buffer[i], k) by {
        if i == index {
            lemma_with_bit(buffer[index], address.bit, on, k);
        }
    }
    assert forall|x2: int, y2: int| !(x2 == x && y2 == y) implies #[trigger] pixel_is_on(
        written,
        width,
        axis,
        x2,
        y2,
    ) == pixel_is_on(buffer, width, axis, x2, y2) by {
        if spec_resolves(width, axis, x2, y2) {
            let other = spec_resolve(width, axis, x2, y2)->Some_0;
            assert(other.bit < 8);
            if other == address {
                lemma_distinct_pixels_distinct_bits(width, axis, x, y, x2, y2);
            }
            if other.index == address.index {
                lemma_with_bit(buffer[index], address.bit, on, other.bit);
            }
        }
    }
}

/// A pixel that has a place in the buffer reads back as it was written.
proof fn lemma_write_then_read(
    buffer: Seq<u8>,
    width: nat,
    axis: PackedAxis,
    x: int,
    y: int,
    on: bool,
)
    requires
        buffer.len() == BUFFER_SIZE,
        spec_resolves(width, axis, x, y),
    ensures
        write_pixel(buffer, width, axis, x, y, on).len() == BUFFER_SIZE,
        pixel_is_on(write_pixel(buffer, width, axis, x, y, on), width, axis, x, y) == on,
{
    let address = spec_resolve(width, axis, x, y)->Some_0;
    assert(address.bit < 8);
    lemma_with_bit(buffer[address.index as int], address.bit, on, address.bit);
}

/// A pixel that lies outside the picture and has no place in the frame
/// buffer is dropped: writing it leaves the buffer as it was, bit for bit.
///
/// A pixel left of or above the picture, or past the panel's last column, is
/// always such a pixel.
pub proof fn lemma_pixel_without_place_is_dropped(
    buffer: Seq<u8>,
    geometry: Geometry,
    rotation: DisplayRotation,
    x: int,
    y: int,
    on: bool,
)
    requires
        !geometry.contains(rotation, x, y),
        !spec_resolves(geometry.width, rotation.spec_packed_axis(), x, y),
    ensures
        write_pixel(buffer, geometry.width, rotation.spec_packed_axis(), x, y, on) == buffer,
        !pixel_is_on(buffer, geometry.width, rotation.spec_packed_axis(), x, y),
{
}

/// Which pixels outside the picture are certain to have no place in the
/// frame buffer: those with a negative coordinate and those past the panel's
/// last column.
pub proof fn lemma_pixel_past_the_columns_has_no_place(
    geometry: Geometry,
    rotation: DisplayRotation,
    x: int,
    y: int,
)
    requires
        x < 0 || y < 0 || rotation.spec_packed_axis().column(x, y) >= geometry.width,
    ensures
        !geometry.contains(rotation, x, y),
        !spec_resolves(geometry.width, rotation.spec_packed_axis(), x, y),
{
}

/// A pixel outside the picture never shows: on a panel whose height is a
/// whole number of pages, writing it leaves the bytes that a flush writes
/// out as they were.
pub proof fn lemma_pixel_outside_picture_is_not_shown(
    buffer: Seq<u8>,
    geometry: Geometry,
    rotation: DisplayRotation,
    x: int,
    y: int,
    on: bool,
)
    requires
        buffer.len() == BUFFER_SIZE,
        geometry.supported(),
        geometry.height % 8 == 0,
        !geometry.contains(rotation, x, y),
    ensures
        write_pixel(buffer, geometry.width, rotation.spec_packed_axis(), x, y, on).subrange(
            0,
            geometry.byte_count() as int,
        ) == buffer.subrange(0, geometry.byte_count() as int),
{
    let axis = rotation.spec_packed_axis();
    let width = geometry.width as int;
    let height = geometry.height as int;
    let written = write_pixel(buffer, geometry.width, axis, x, y, on);
    crate::displaysize::lemma_byte_count_fits(geometry);
    if spec_resolves(geometry.width, axis, x, y) {
        let page = axis.packed(x, y) / 8;
        let column = axis.column(x, y);
        assert(axis.packed(x, y) >= height);
        assert(page >= height / 8);
        assert(width * height / 8 == (height / 8) * width) by (nonlinear_arith)
            requires
                height % 8 == 0,
                height >= 0,
                width >= 0,
        ;
        assert(page * width + column >= (height / 8) * width) by (nonlinear_arith)
            requires
                page >= height / 8,
                width >= 0,
                column >= 0,
        ;
    }
    assert(written.subrange(0, geometry.byte_count() as int) =~= buffer.subrange(
        0,
        geometry.byte_count() as int,
    ));
}

/// In a blank buffer every byte is zero and every pixel reads as off.
pub proof fn lemma_blank_reads_off(width: nat, axis: PackedAxis, x: int, y: int)
    ensures
        blank().len() == BUFFER_SIZE,
        forall|i: int| 0 <= i < BUFFER_SIZE ==> #[trigger] blank()[i] == 0u8,
        forall|i: int, k: u8|
            0 <= i < BUFFER_SIZE && k < 8 ==> !#[trigger] bit_is_set(blank()[i], k),
        !pixel_is_on(blank(), width, axis, x, y),
{
    assert forall|k: u8| k < 8 implies !#[trigger] bit_is_set(0u8, k) by {
        assert(0u8 & (1u8 << k) == 0) by (bit_vector);
    }
}

/// A quarter turn exchanges the roles of the two coordinates and nothing
/// else: the pixel at `(a, b)` of an upright picture and the pixel at
/// `(b, a)` of a picture turned by a quarter are the same bit of the same
/// buffer. Writing either gives the same buffer, of unchanged length, and
/// both read alike.
pub proof fn lemma_quarter_turn_exchanges_coordinates(
    buffer: Seq<u8>,
    width: nat,
    upright: DisplayRotation,
    turned: DisplayRotation,
    a: int,
    b: int,
    on: bool,
)
    requires
        buffer.len() == BUFFER_SIZE,
        !upright.spec_is_transposed(),
        turned.spec_is_transposed(),
    ensures
        spec_resolve(width, upright.spec_packed_axis(), a, b) == spec_resolve(
            width,
            turned.spec_packed_axis(),
            b,
            a,
        ),
        write_pixel(buffer, width, upright.spec_packed_axis(), a, b, on) == write_pixel(
            buffer,
            width,
            turned.spec_packed_axis(),
            b,
            a,
            on,
        ),
        write_pixel(buffer, width, upright.spec_packed_axis(), a, b, on).len() == buffer.len(),
        pixel_is_on(buffer, width, upright.spec_packed_axis(), a, b) == pixel_is_on(
            buffer,
            width,
            turned.spec_packed_axis(),
            b,
            a,
        ),
{
}

/// A pixel of a drawing that lies outside the picture and has no place in
/// the frame buffer is dropped: the buffer stays as it was, bit for bit. A
/// pixel with a negative coordinate is always such a pixel.
pub proof fn lemma_drawn_pixel_without_place_is_dropped(
    buffer: Seq<u8>,
    geometry: Geometry,
    rotation: DisplayRotation,
    pixel: Pixel,
)
    requires
        !geometry.contains(rotation, pixel.x as int, pixel.y as int),
        pixel.x < 0 || pixel.y < 0 || !spec_resolves(
            geometry.width,
            rotation.spec_packed_axis(),
            pixel.x as int,
            pixel.y as int,
        ),
    ensures
        draw_pixel(buffer, geometry.width, rotation.spec_packed_axis(), pixel) == buffer,
{
}

} // verus!
