//! Orientation of the picture relative to the physical panel.

use vstd::prelude::*;

verus! {

/// One of the four orientations of the picture on the panel.
///
/// A rotation changes how a pixel is addressed in the frame buffer. It never
/// changes the size of the buffer nor the number of bytes written out.
#[derive(Clone, Copy, Debug, PartialEq, Eq, Structural)]
pub enum DisplayRotation {
    /// No rotation.
    Rotate0,
    /// Rotated by 90 degrees clockwise.
    Rotate90,
    /// Rotated by 180 degrees.
    Rotate180,
    /// Rotated by 270 degrees clockwise.
    Rotate270,
}

impl DisplayRotation {
    /// Whether the picture axes are exchanged with respect to the panel axes,
    /// which is the case for a quarter turn in either direction.
    pub open spec fn spec_is_transposed(self) -> bool {
        self == DisplayRotation::Rotate90 || self == DisplayRotation::Rotate270
    }

    /// Whether the picture axes are exchanged with respect to the panel axes.
    #[verifier::when_used_as_spec(spec_is_transposed)]
    pub fn is_transposed(self) -> (transposed: bool)
        ensures
            transposed == self.spec_is_transposed(),
    {
        match self {
            DisplayRotation::Rotate0 | DisplayRotation::Rotate180 => false,
            DisplayRotation::Rotate90 | DisplayRotation::Rotate270 => true,
        }
    }
}

} // verus!
