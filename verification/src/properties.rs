//! Display properties: geometry, rotation, and the transport.

use vstd::prelude::*;

use crate::displayrotation::DisplayRotation;
use crate::displaysize::DisplaySize;
use crate::interface::DisplayInterface;
use crate::interface::Exchange;
use crate::interface::Request;

verus! {

/// Geometry and rotation of a display, and the transport that reaches it.
///
/// Every call of the transport goes through this type, which keeps a ghost
/// record of it: [`DisplayProperties::exchanges`] is the sequence of requests
/// made so far, each with the transport's answer, oldest first.
pub struct DisplayProperties<DI: DisplayInterface> {
    iface: DI,
    display_size: DisplaySize,
    display_rotation: DisplayRotation,
    exchanges: Ghost<Seq<Exchange<DI::Error>>>,
}

impl<DI: DisplayInterface> DisplayProperties<DI> {
    /// The panel's geometry.
    pub closed spec fn size(&self) -> DisplaySize {
        self.display_size
    }

    /// The rotation in force.
    pub closed spec fn rotation(&self) -> DisplayRotation {
        self.display_rotation
    }

    /// All requests made of the transport since construction, with their
    /// outcomes, oldest first.
    pub closed spec fn exchanges(&self) -> Seq<Exchange<DI::Error>> {
        self.exchanges@
    }

    /// Wraps a transport for a panel of the given geometry and rotation.
    /// Nothing is asked of the transport.
    pub fn new(
        iface: DI,
        display_size: DisplaySize,
        display_rotation: DisplayRotation,
    ) -> (properties: Self)
        ensures
            properties.size() == display_size,
            properties.rotation() == display_rotation,
            properties.exchanges() == Seq::<Exchange<DI::Error>>::empty(),
    {
        DisplayProperties { iface, display_size, display_rotation, exchanges: Ghost(Seq::empty()) }
    }

    /// Programs the controller for column addressing.
    pub fn init_column_mode(&mut self) -> (outcome: Result<(), DI::Error>)
        ensures
            final(self).size() == old(self).size(),
            final(self).rotation() == old(self).rotation(),
            final(self).exchanges() == old(self).exchanges().push(
                Exchange { request: Request::InitColumnMode, outcome },
            ),
    {
        let outcome = self.iface.init_column_mode();
        proof {
            self.exchanges@ = self.exchanges@.push(
                Exchange { request: Request::InitColumnMode, outcome },
            );
        }
        outcome
    }

    /// Programs the window that the next pixel data will fill.
    pub fn set_draw_area(&mut self, start: (u8, u8), end: (u8, u8)) -> (outcome: Result<
        (),
        DI::Error,
    >)
        ensures
            final(self).size() == old(self).size(),
            final(self).rotation() == old(self).rotation(),
            final(self).exchanges() == old(self).exchanges().push(
                Exchange { request: Request::SetDrawArea { start, end }, outcome },
            ),
    {
        let outcome = self.iface.set_draw_area(start, end);
        proof {
            self.exchanges@ = self.exchanges@.push(
                Exchange { request: Request::SetDrawArea { start, end }, outcome },
            );
        }
        outcome
    }

    /// Writes pixel data into the window programmed last.
    pub fn draw(&mut self, buffer: &[u8]) -> (outcome: Result<(), DI::Error>)
        ensures
            final(self).size() == old(self).size(),
            final(self).rotation() == old(self).rotation(),
            final(self).exchanges() == old(self).exchanges().push(
                Exchange { request: Request::Draw(buffer@), outcome },
            ),
    {
        let outcome = self.iface.draw(buffer);
        proof {
            self.exchanges@ = self.exchanges@.push(
                Exchange { request: Request::Draw(buffer@), outcome },
            );
        }
        outcome
    }

    /// The panel's geometry.
    pub fn get_size(&self) -> (size: DisplaySize)
        ensures
            size == self.size(),
    {
        self.display_size
    }

    /// Width and height of the picture: those of the panel, exchanged for a
    /// quarter turn.
    pub fn get_dimensions(&self) -> (dimensions: (u8, u8))
        ensures
            dimensions.0 == self.size()@.dimensions(self.rotation()).0,
            dimensions.1 == self.size()@.dimensions(self.rotation()).1,
    {
        let (width, height): (u8, u8) = self.display_size.dimensions();
        if self.display_rotation.is_transposed() {
            (height, width)
        } else {
            (width, height)
        }
    }

    /// The rotation in force.
    pub fn get_rotation(&self) -> (rotation: DisplayRotation)
        ensures
            rotation == self.rotation(),
    {
        self.display_rotation
    }

    /// Puts `rotation` in force and tells the controller. The new rotation
    /// stays in force even if the transport fails.
    pub fn set_rotation(&mut self, rotation: DisplayRotation) -> (outcome: Result<(), DI::Error>)
        ensures
            final(self).size() == old(self).size(),
            final(self).rotation() == rotation,
            final(self).exchanges() == old(self).exchanges().push(
                Exchange { request: Request::SetRotation(rotation), outcome },
            ),
    {
        self.display_rotation = rotation;
        let outcome = self.iface.set_rotation(rotation);
        proof {
            self.exchanges@ = self.exchanges@.push(
                Exchange { request: Request::SetRotation(rotation), outcome },
            );
        }
        outcome
    }
}

} // verus!
