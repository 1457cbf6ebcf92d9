//! Element shape geometry: local-space vertex and index lists plus the
//! shape's half-extents, all in millinorm units.

use vstd::prelude::*;

use crate::ui::fixedpoint::{lemma_scale_trunc_shrinks, muldiv_trunc, scale_trunc};
use crate::ui::vertex::Vertex;

verus! {

/// The largest magnitude a shape, anchor or offset coordinate may have, in
/// millinorm units.
pub const COORD_LIMIT: i32 = 0x0100_0000;

/// `1000 / sqrt(3)`, rounded down: the horizontal reach of a hexagon
/// panel's point per millinorm of half-height.
pub const HEX_SLOPE_PERMILLE: u64 = 577;

/// A 2D shape in local space: vertices, a triangle list over them, and the
/// half-extents `(x, y)` of the shape's bounding box.
pub struct Shape2d {
    pub vertices: Vec<Vertex>,
    pub indices: Vec<u16>,
    pub radii: (i32, i32),
}

/// Every coordinate of the vertex is within the shared coordinate limit.
pub open spec fn vertex_bounded(v: Vertex) -> bool {
    &&& -COORD_LIMIT <= v.position.0 <= COORD_LIMIT
    &&& -COORD_LIMIT <= v.position.1 <= COORD_LIMIT
    &&& -COORD_LIMIT <= v.position.2 <= COORD_LIMIT
}

impl Shape2d {
    /// Indices address real vertices, coordinates are bounded, the vertex
    /// count leaves room in a 16-bit index space, and the half-extents are
    /// plausible.
    pub open spec fn wf(self) -> bool {
        &&& self.vertices@.len() <= 0xFFFF
        &&& forall|i: int|
            0 <= i < self.indices@.len() ==> (#[trigger] self.indices@[i]) < self.vertices@.len()
        &&& forall|i: int| 0 <= i < self.vertices@.len() ==> vertex_bounded(#[trigger] self.vertices@[i])
        &&& 0 <= self.radii.0 <= COORD_LIMIT
        &&& 0 <= self.radii.1 <= COORD_LIMIT
    }

    /// An axis-aligned rectangle of the given height and width, centered
    /// on the local origin at depth `depth_mn`, as two triangles.
    pub fn rectangle(height_mn: u32, width_mn: u32, depth_mn: i32, color: (u8, u8, u8, u8)) -> (r:
        Shape2d)
        requires
            height_mn / 2 <= COORD_LIMIT,
            width_mn / 2 <= COORD_LIMIT,
            -COORD_LIMIT <= depth_mn <= COORD_LIMIT,
        ensures
            r.wf(),
            r.radii == ((width_mn / 2) as i32, (height_mn / 2) as i32),
            r.vertices@ == rectangle_vertices(height_mn as int, width_mn as int, depth_mn, color),
            r.indices@ == seq![0u16, 1u16, 2u16, 0u16, 2u16, 3u16],
    {
        let rx: i32 = (width_mn / 2) as i32;
        let ry: i32 = (height_mn / 2) as i32;
        let mut vertices: Vec<Vertex> = Vec::new();
        vertices.push(Vertex::new((-rx, -ry, depth_mn), color, (-1000, -1000)));
        vertices.push(Vertex::new((-rx, ry, depth_mn), color, (-1000, 1000)));
        vertices.push(Vertex::new((rx, ry, depth_mn), color, (1000, 1000)));
        vertices.push(Vertex::new((rx, -ry, depth_mn), color, (1000, -1000)));
        let mut indices: Vec<u16> = Vec::new();
        indices.push(0);
        indices.push(1);
        indices.push(2);
        indices.push(0);
        indices.push(2);
        indices.push(3);
        let r = Shape2d { vertices, indices, radii: (rx, ry) };
        assert(r.vertices@ =~= rectangle_vertices(height_mn as int, width_mn as int, depth_mn,
            color));
        assert(r.indices@ =~= seq![0u16, 1u16, 2u16, 0u16, 2u16, 3u16]);
        r
    }

    /// A hexagonal panel: a rectangle of the given half-width extension
    /// with a triangular point on the left and right, centered on the
    /// local origin at depth `depth_mn`, as a four-triangle fan.
    pub fn hexagon_panel(
        height_mn: u32,
        extra_width_mn: u32,
        depth_mn: i32,
        color: (u8, u8, u8, u8),
    ) -> (r: Shape2d)
        requires
            height_mn / 2 + extra_width_mn / 2 <= COORD_LIMIT,
            -COORD_LIMIT <= depth_mn <= COORD_LIMIT,
        ensures
            r.wf(),
            r.radii == (
                ((extra_width_mn / 2) + hex_point_reach(height_mn as int)) as i32,
                (height_mn / 2) as i32,
            ),
            r.vertices@ == hexagon_vertices(height_mn as int, extra_width_mn as int, depth_mn,
                color),
            r.indices@ == seq![
                0u16, 1u16, 2u16,
                0u16, 2u16, 3u16,
                0u16, 3u16, 4u16,
                0u16, 4u16, 5u16,
            ],
    {
        let ry: i32 = (height_mn / 2) as i32;
        let ew: i32 = (extra_width_mn / 2) as i32;
        proof {
            lemma_scale_trunc_shrinks(ry as int, HEX_SLOPE_PERMILLE as int, 1000);
        }
        let hx: i32 = muldiv_trunc(ry as i64, HEX_SLOPE_PERMILLE, 1000) as i32;
        let rx: i32 = ew + hx;
        let mut vertices: Vec<Vertex> = Vec::new();
        vertices.push(Vertex::new((-rx, 0, depth_mn), color, (-1000, 0)));
        vertices.push(Vertex::new((-ew, ry, depth_mn), color, (-1000, 1000)));
        vertices.push(Vertex::new((ew, ry, depth_mn), color, (1000, 1000)));
        vertices.push(Vertex::new((rx, 0, depth_mn), color, (1000, 0)));
        vertices.push(Vertex::new((ew, -ry, depth_mn), color, (1000, -1000)));
        vertices.push(Vertex::new((-ew, -ry, depth_mn), color, (-1000, -1000)));
        let mut indices: Vec<u16> = Vec::new();
        indices.push(0);
        indices.push(1);
        indices.push(2);
        indices.push(0);
        indices.push(2);
        indices.push(3);
        indices.push(0);
        indices.push(3);
        indices.push(4);
        indices.push(0);
        indices.push(4);
        indices.push(5);
        let r = Shape2d { vertices, indices, radii: (rx, ry) };
        assert(r.vertices@ =~= hexagon_vertices(height_mn as int, extra_width_mn as int, depth_mn,
            color));
        assert(r.indices@ =~= seq![
            0u16, 1u16, 2u16,
            0u16, 2u16, 3u16,
            0u16, 3u16, 4u16,
            0u16, 4u16, 5u16,
        ]);
        r
    }
}

/// How far a hexagon point reaches beyond the flat section, per the
/// panel's half-height.
pub open spec fn hex_point_reach(height_mn: int) -> int {
    scale_trunc(height_mn / 2, HEX_SLOPE_PERMILLE as int, 1000)
}

/// The four corners of `Shape2d::rectangle`, counterclockwise from the
/// bottom left.
pub open spec fn rectangle_vertices(
    height_mn: int,
    width_mn: int,
    depth_mn: i32,
    color: (u8, u8, u8, u8),
) -> Seq<Vertex> {
    let rx = (width_mn / 2) as i32;
    let ry = (height_mn / 2) as i32;
    seq![
        Vertex { position: ((-rx) as i32, (-ry) as i32, depth_mn), color, xy_normal: (-1000i32, -1000i32) },
        Vertex { position: ((-rx) as i32, ry, depth_mn), color, xy_normal: (-1000i32, 1000i32) },
        Vertex { position: (rx, ry, depth_mn), color, xy_normal: (1000i32, 1000i32) },
        Vertex { position: (rx, (-ry) as i32, depth_mn), color, xy_normal: (1000i32, -1000i32) },
    ]
}

/// The six corners of `Shape2d::hexagon_panel`: left point, then the flat
/// section's corners counterclockwise, then the right point between them.
pub open spec fn hexagon_vertices(
    height_mn: int,
    extra_width_mn: int,
    depth_mn: i32,
    color: (u8, u8, u8, u8),
) -> Seq<Vertex> {
    let ry = (height_mn / 2) as i32;
    let ew = (extra_width_mn / 2) as i32;
    let rx = (extra_width_mn / 2 + hex_point_reach(height_mn)) as i32;
    seq![
        Vertex { position: ((-rx) as i32, 0i32, depth_mn), color, xy_normal: (-1000i32, 0i32) },
        Vertex { position: ((-ew) as i32, ry, depth_mn), color, xy_normal: (-1000i32, 1000i32) },
        Vertex { position: (ew, ry, depth_mn), color, xy_normal: (1000i32, 1000i32) },
        Vertex { position: (rx, 0i32, depth_mn), color, xy_normal: (1000i32, 0i32) },
        Vertex { position: (ew, (-ry) as i32, depth_mn), color, xy_normal: (1000i32, -1000i32) },
        Vertex { position: ((-ew) as i32, (-ry) as i32, depth_mn), color, xy_normal: (-1000i32, -1000i32) },
    ]
}

} // verus!
