//! Where a pixel lives in the frame buffer.
//!
//! The buffer is laid out as the controller's memory is: byte `p * width + c`
//! holds the eight pixels of column `c` in page `p`, the topmost in bit 0.
//! Without rotation, or with a half turn, `x` picks the column and `y` runs
//! down the pages. With a quarter turn the two coordinates change roles. One
//! function serves all four rotations: it is told which axis is packed into
//! bytes.

use vstd::prelude::*;

use crate::displayrotation::DisplayRotation;
use crate::displaysize::BUFFER_SIZE;

verus! {

/// The picture axis whose coordinate runs through the pages and the bits of
/// a byte. The other coordinate picks the column.
#[derive(Clone, Copy, Debug, PartialEq, Eq, Structural)]
pub enum PackedAxis {
    /// Eight pixels with consecutive `y` share a byte.
    Y,
    /// Eight pixels with consecutive `x` share a byte.
    X,
}

impl PackedAxis {
    /// The coordinate that picks the column.
    pub open spec fn column(self, x: int, y: int) -> int {
        match self {
            PackedAxis::Y => x,
            PackedAxis::X => y,
        }
    }

    /// The coordinate that picks page and bit.
    pub open spec fn packed(self, x: int, y: int) -> int {
        match self {
            PackedAxis::Y => y,
            PackedAxis::X => x,
        }
    }
}

impl DisplayRotation {
    /// The axis packed into bytes under this rotation: `y` without rotation
    /// and for a half turn, `x` for a quarter turn.
    pub open spec fn spec_packed_axis(self) -> PackedAxis {
        if self.spec_is_transposed() {
            PackedAxis::X
        } else {
            PackedAxis::Y
        }
    }

    /// The axis packed into bytes under this rotation.
    #[verifier::when_used_as_spec(spec_packed_axis)]
    pub fn packed_axis(self) -> (axis: PackedAxis)
        ensures
            axis == self.spec_packed_axis(),
    {
        match self {
            DisplayRotation::Rotate0 | DisplayRotation::Rotate180 => PackedAxis::Y,
            DisplayRotation::Rotate90 | DisplayRotation::Rotate270 => PackedAxis::X,
        }
    }
}

/// A bit of the frame buffer.
#[derive(Clone, Copy, Debug, PartialEq, Eq, Structural)]
pub struct PixelAddress {
    /// Index of the byte, below [`BUFFER_SIZE`].
    pub index: usize,
    /// Number of the bit in that byte, below 8; bit 0 is the least significant.
    pub bit: u8,
}

/// Index of the byte that a pixel falls into, with no regard to any bound:
/// the page of the packed coordinate times the width, plus the column.
pub open spec fn spec_byte_index(width: nat, axis: PackedAxis, x: int, y: int) -> int {
    axis.packed(x, y) / 8 * width + axis.column(x, y)
}

/// Whether the pixel at `(x, y)` has a place in the frame buffer of a panel
/// `width` columns wide: neither coordinate is negative, the column exists,
/// and the byte lies inside the buffer. The packed coordinate is held against
/// no bound but the buffer's end.
pub open spec fn spec_resolves(width: nat, axis: PackedAxis, x: int, y: int) -> bool {
    &&& 0 <= x
    &&& 0 <= y
    &&& axis.column(x, y) < width
    &&& spec_byte_index(width, axis, x, y) < BUFFER_SIZE
}

/// The bit that holds the pixel at `(x, y)`, or `None` where the pixel has no
/// place in the buffer.
pub open spec fn spec_resolve(width: nat, axis: PackedAxis, x: int, y: int) -> Option<
    PixelAddress,
> {
    if spec_resolves(width, axis, x, y) {
        Some(
            PixelAddress {
                index: spec_byte_index(width, axis, x, y) as usize,
                bit: (axis.packed(x, y) % 8) as u8,
            },
        )
    } else {
        None
    }
}

/// Finds the bit of the frame buffer that holds the pixel at `(x, y)` on a
/// panel `width` columns wide; `None` where the pixel has no place in it.
pub fn resolve(width: u8, axis: PackedAxis, x: u32, y: u32) -> (address: Option<PixelAddress>)
    ensures
        address == spec_resolve(width as nat, axis, x as int, y as int),
        address matches Some(a) ==> a.index < BUFFER_SIZE && a.bit < 8,
{
    let (column, packed): (u32, u32) = match axis {
        PackedAxis::Y => (x, y),
        PackedAxis::X => (y, x),
    };
    if column >= width as u32 {
        return None;
    }
    let page: u64 = (packed / 8) as u64;
    assert(page * (width as u64) <= 0x1fff_ffff * 255) by (nonlinear_arith)
        requires
            page <= 0x1fff_ffff,
            width <= 255,
    ;
    let index: u64 = page * (width as u64) + column as u64;
    if index >= BUFFER_SIZE as u64 {
        return None;
    }
    Some(PixelAddress { index: index as usize, bit: (packed % 8) as u8 })
}

/// Whether bit number `bit` of `byte` is set.
pub open spec fn bit_is_set(byte: u8, bit: u8) -> bool {
    byte & (1u8 << bit) != 0
}

/// `byte` with bit number `bit` set if `on`, cleared if not, and every other
/// bit as it was.
pub open spec fn with_bit(byte: u8, bit: u8, on: bool) -> u8 {
    if on {
        byte | (1u8 << bit)
    } else {
        byte & !(1u8 << bit)
    }
}

/// Sets or clears one bit of a byte and keeps the other seven.
pub(crate) fn write_bit(byte: u8, bit: u8, on: bool) -> (changed: u8)
    requires
        bit < 8,
    ensures
        changed == with_bit(byte, bit, on),
{
    let mask: u8 = 1u8 << bit;
    if on {
        byte | mask
    } else {
        byte & !mask
    }
}

/// Writing one bit of a byte is read back from that bit and leaves the
/// other seven as they were.
pub proof fn lemma_with_bit(byte: u8, bit: u8, on: bool, k: u8)
    requires
        bit < 8,
        k < 8,
    ensures
        bit_is_set(with_bit(byte, bit, on), k) == (if k == bit {
            on
        } else {
            bit_is_set(byte, k)
        }),
{
    assert(bit_is_set(byte | (1u8 << bit), k) == (k == bit || bit_is_set(byte, k)))
        by (bit_vector)
        requires
            bit < 8,
            k < 8,
    ;
    assert(bit_is_set(byte & !(1u8 << bit), k) == (k != bit && bit_is_set(byte, k)))
        by (bit_vector)
        requires
            bit < 8,
            k < 8,
    ;
}

} // verus!
