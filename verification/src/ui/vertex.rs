//! The logical vertex an element emits: position and normal in millinorm
//! units, color as four 8-bit channels. The embedding layer converts these
//! to whatever its GPU pipeline wants.

use vstd::prelude::*;

verus! {

/// One vertex of an element's emitted geometry.
#[derive(Clone, Copy, Debug, PartialEq, Eq)]
pub struct Vertex {
    /// Position in millinorm units (thousandths of a normalized
    /// coordinate), x/y/z.
    pub position: (i32, i32, i32),
    /// RGBA color, one byte per channel.
    pub color: (u8, u8, u8, u8),
    /// The vertex's outward normal in the surface plane, millinorm units.
    pub xy_normal: (i32, i32),
}

impl Vertex {
    /// Bundle the three attributes into a vertex.
    pub fn new(position: (i32, i32, i32), color: (u8, u8, u8, u8), xy_normal: (i32, i32)) -> (r:
        Vertex)
        ensures
            r == (Vertex { position, color, xy_normal }),
    {
        Vertex { position, color, xy_normal }
    }
}

} // verus!
