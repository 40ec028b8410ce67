//! Geometry of the panel behind the controller.

use vstd::prelude::*;

use crate::displayrotation::DisplayRotation;

verus! {

/// Number of bytes in the frame buffer: one bit for each pixel of the largest
/// panel the controller can drive, 132 columns by 64 rows.
pub const BUFFER_SIZE: usize = 132 * 64 / 8;

/// A geometry as plain numbers: the model of a [`DisplaySize`].
pub struct Geometry {
    /// Visible columns of the unrotated panel.
    pub width: nat,
    /// Visible rows of the unrotated panel.
    pub height: nat,
    /// Controller column that holds the first visible column.
    pub column_offset: nat,
}

impl Geometry {
    /// Number of pages: rows of bytes, each byte holding eight stacked pixels.
    /// A last page may be only partly visible.
    pub open spec fn pages(self) -> nat {
        (self.height + 7) / 8
    }

    /// A geometry is supported when all its pages fit the frame buffer and
    /// both the row and the column just past the last visible one are still
    /// byte-sized addresses.
    pub open spec fn supported(self) -> bool {
        &&& self.pages() * self.width <= BUFFER_SIZE
        &&& self.width + self.column_offset <= u8::MAX
        &&& self.height <= u8::MAX
    }

    /// Number of bytes written out for this geometry: one bit per pixel.
    pub open spec fn byte_count(self) -> nat {
        self.width * self.height / 8
    }

    /// Width and height of the picture under `rotation`: those of the panel,
    /// exchanged for a quarter turn.
    pub open spec fn dimensions(self, rotation: DisplayRotation) -> (nat, nat) {
        if rotation.spec_is_transposed() {
            (self.height, self.width)
        } else {
            (self.width, self.height)
        }
    }

    /// Whether the picture under `rotation` has a pixel at `(x, y)`.
    pub open spec fn contains(self, rotation: DisplayRotation, x: int, y: int) -> bool {
        &&& 0 <= x < self.dimensions(rotation).0
        &&& 0 <= y < self.dimensions(rotation).1
    }
}

/// A supported panel geometry: width and height in pixels of the unrotated
/// panel, and the offset of its first column in the controller's memory.
///
/// Every value of this type is supported in the sense of
/// [`Geometry::supported`]; [`DisplaySize::new`] refuses the others.
#[derive(Clone, Copy, Debug)]
pub struct DisplaySize {
    width: u8,
    height: u8,
    column_offset: u8,
}

impl View for DisplaySize {
    type V = Geometry;

    closed spec fn view(&self) -> Geometry {
        Geometry {
            width: self.width as nat,
            height: self.height as nat,
            column_offset: self.column_offset as nat,
        }
    }
}

impl DisplaySize {
    #[verifier::type_invariant]
    spec fn well_formed(self) -> bool {
        self@.supported()
    }

    /// Makes the geometry of a panel of `width` by `height` pixels whose
    /// first column sits at `column_offset`; `None` if it is not supported.
    pub fn new(width: u8, height: u8, column_offset: u8) -> (size: Option<DisplaySize>)
        ensures
            size is Some <==> (Geometry {
                width: width as nat,
                height: height as nat,
                column_offset: column_offset as nat,
            }).supported(),
            size matches Some(s) ==> s@ == (Geometry {
                width: width as nat,
                height: height as nat,
                column_offset: column_offset as nat,
            }),
    {
        let pages: usize = (height as usize + 7) / 8;
        assert(pages * (width as usize) <= 32 * 255) by (nonlinear_arith)
            requires
                pages <= 32,
                width <= 255,
        ;
        if pages * (width as usize) <= BUFFER_SIZE && width as usize + column_offset as usize
            <= 255 {
            Some(DisplaySize { width, height, column_offset })
        } else {
            None
        }
    }

    /// Width and height of the unrotated panel.
    pub fn dimensions(&self) -> (dimensions: (u8, u8))
        ensures
            dimensions.0 == self@.width,
            dimensions.1 == self@.height,
            self@.supported(),
    {
        proof {
            use_type_invariant(self);
        }
        (self.width, self.height)
    }

    /// Offset of the first visible column in the controller's memory.
    pub fn column_offset(&self) -> (offset: u8)
        ensures
            offset == self@.column_offset,
            self@.supported(),
    {
        proof {
            use_type_invariant(self);
        }
        self.column_offset
    }
}

/// The bytes written out for a supported geometry fit the frame buffer.
pub proof fn lemma_byte_count_fits(geometry: Geometry)
    requires
        geometry.supported(),
    ensures
        geometry.byte_count() <= BUFFER_SIZE,
{
    let w = geometry.width as int;
    let h = geometry.height as int;
    let p = geometry.pages() as int;
    assert(h <= 8 * p);
    assert(w * h <= w * (8 * p)) by (nonlinear_arith)
        requires
            h <= 8 * p,
            w >= 0,
    ;
    assert(w * (8 * p) == 8 * (p * w)) by (nonlinear_arith);
}

} // verus!
