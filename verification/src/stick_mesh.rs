//! The peg stick's mesh topology: the index buffer of the cylinder grid.
//! Computing the vertex coordinates, and uploading both buffers to the GPU,
//! is the renderer's business.

use vstd::prelude::*;

verus! {

/// Radial segments of the cylinder grid.
pub const STICK_SEGMENTS: u16 = 32;

/// Vertical segments of the cylinder grid.
pub const STICK_HEIGHT_SEGMENTS: u16 = 10;

/// The six indices of cylinder grid cell `(i, j)` stand at their place in
/// `s` and name the cell's corners, two triangles `(a, b, c)` and
/// `(c, d, a)`. Rows are rings of 33 vertices, both seam ends included.
pub open spec fn stick_quad_ok(s: Seq<u16>, i: int, j: int) -> bool {
    let segs = STICK_SEGMENTS as int;
    let base = 6 * (i * segs + j);
    &&& s[base] == (i * (segs + 1) + j) as u16
    &&& s[base + 1] == ((i + 1) * (segs + 1) + j) as u16
    &&& s[base + 2] == ((i + 1) * (segs + 1) + j + 1) as u16
    &&& s[base + 3] == ((i + 1) * (segs + 1) + j + 1) as u16
    &&& s[base + 4] == (i * (segs + 1) + j + 1) as u16
    &&& s[base + 5] == (i * (segs + 1) + j) as u16
}

/// Builds the peg stick's mesh.
pub struct StickMeshFactory {}

impl StickMeshFactory {
    /// A stick factory; the cylinder's measures are fixed.
    pub fn new() -> (r: Self)
        ensures
            r == (StickMeshFactory {  }),
    {
        StickMeshFactory {  }
    }

    /// The cylinder's index buffer: every grid cell becomes two triangles,
    /// and every index names one of the grid's vertices.
    pub fn index_data(&self) -> (r: Vec<u16>)
        ensures
            r@.len() == 6 * (STICK_HEIGHT_SEGMENTS * STICK_SEGMENTS),
            forall|i: int, j: int|
                0 <= i < STICK_HEIGHT_SEGMENTS && 0 <= j < STICK_SEGMENTS ==> #[trigger]
                stick_quad_ok(r@, i, j),
            forall|k: int|
                0 <= k < r@.len() ==> r@[k] < (STICK_HEIGHT_SEGMENTS + 1) * (STICK_SEGMENTS + 1),
    {
        let mut index_data: Vec<u16> = Vec::new();

        let segments: u16 = STICK_SEGMENTS;
        let height_segments: u16 = STICK_HEIGHT_SEGMENTS;

        let mut i: u16 = 0;
        while i < height_segments
            invariant
                0 <= i <= height_segments,
                segments == STICK_SEGMENTS,
                height_segments == STICK_HEIGHT_SEGMENTS,
                index_data@.len() == 6 * (i * segments),
                forall|i2: int, j2: int|
                    0 <= i2 < i && 0 <= j2 < segments ==> #[trigger] stick_quad_ok(
                        index_data@,
                        i2,
                        j2,
                    ),
                forall|k: int|
                    0 <= k < index_data@.len() ==> index_data@[k] < (height_segments + 1) * (
                    segments + 1),
            decreases height_segments - i,
        {
            proof {
                // the row offsets stay small: at most ten rows of 33 vertices
                assert(i as int * ((segments + 1) as int) == i as int * 33);
                assert((i as int + 1) * ((segments + 1) as int) == (i as int + 1) * 33);
            }
            let row1: u16 = i * (segments + 1);
            let row2: u16 = (i + 1) * (segments + 1);

            let mut j: u16 = 0;
            while j < segments
                invariant
                    0 <= j <= segments,
                    0 <= i < height_segments,
                    segments == STICK_SEGMENTS,
                    height_segments == STICK_HEIGHT_SEGMENTS,
                    row1 == i * (segments + 1),
                    row2 == (i + 1) * (segments + 1),
                    row1 <= 297,
                    row2 <= 330,
                    index_data@.len() == 6 * (i * segments) + 6 * j,
                    forall|i2: int, j2: int|
                        0 <= i2 < i && 0 <= j2 < segments ==> #[trigger] stick_quad_ok(
                            index_data@,
                            i2,
                            j2,
                        ),
                    forall|j2: int| 0 <= j2 < j ==> #[trigger] stick_quad_ok(index_data@, i as int, j2),
                    forall|k: int|
                        0 <= k < index_data@.len() ==> index_data@[k] < (height_segments + 1) * (
                        segments + 1),
                decreases segments - j,
            {
                let a: u16 = row1 + j;
                let b: u16 = row2 + j;
                let c: u16 = row2 + j + 1;
                let d: u16 = row1 + j + 1;

                let ghost pre = index_data@;

                index_data.push(a);
                index_data.push(b);
                index_data.push(c);
                index_data.push(c);
                index_data.push(d);
                index_data.push(a);

                proof {
                    // earlier cells sit below the part just appended
                    assert forall|i2: int, j2: int|
                        0 <= i2 < i && 0 <= j2 < segments implies #[trigger] stick_quad_ok(
                        index_data@,
                        i2,
                        j2,
                    ) by {
                        assert(stick_quad_ok(pre, i2, j2));
                        assert(6 * (i2 * 32 + j2) + 5 < 6 * (i as int * 32)) by (nonlinear_arith)
                            requires
                                0 <= i2 < i as int,
                                0 <= j2 < 32,
                        ;
                        assert(pre.len() == 6 * (i as int * 32) + 6 * (j as int));
                    }
                    assert forall|j2: int| 0 <= j2 < j + 1 implies #[trigger] stick_quad_ok(
                        index_data@,
                        i as int,
                        j2,
                    ) by {
                        if j2 < j {
                            assert(stick_quad_ok(pre, i as int, j2));
                        } else {
                            assert(6 * (i as int * 32 + j2) == pre.len() as int);
                            assert(row1 as int == i as int * 33);
                        }
                    }
                }

                j = j + 1;
            }

            proof {
                assert((i as int + 1) * (segments as int) == i as int * (segments as int)
                    + segments as int) by (nonlinear_arith);
            }
            i = i + 1;
        }

        index_data
    }
}

} // verus!
