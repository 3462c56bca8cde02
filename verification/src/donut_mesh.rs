//! The disk's mesh topology: the index buffer of the torus grid, with
//! wrap-around in both directions. Computing the vertex coordinates, and
//! uploading both buffers to the GPU, is the renderer's business.

use vstd::prelude::*;
use vstd::arithmetic::mul::{lemma_mul_inequality, lemma_mul_nonnegative};

verus! {

/// The six indices of torus cell `(i, j)` stand at their place in `s` and
/// name the cell's corners, two triangles `(a, b, c)` and `(c, d, a)`;
/// neighbours wrap around in both the major and the minor direction.
pub open spec fn torus_quad_ok(s: Seq<u16>, i: int, j: int, sm: int, sn: int) -> bool {
    let base = 6 * (i * sn + j);
    let ni = (i + 1) % sm;
    let nj = (j + 1) % sn;
    &&& s[base] == (i * sn + j) as u16
    &&& s[base + 1] == (ni * sn + j) as u16
    &&& s[base + 2] == (ni * sn + nj) as u16
    &&& s[base + 3] == (ni * sn + nj) as u16
    &&& s[base + 4] == (i * sn + nj) as u16
    &&& s[base + 5] == (i * sn + j) as u16
}

/// Every torus vertex number is below the vertex count.
proof fn lemma_torus_vertex_bound(i: int, j: int, sm: int, sn: int)
    requires
        0 <= i < sm,
        0 <= j < sn,
    ensures
        0 <= i * sn + j < sm * sn,
{
    lemma_mul_nonnegative(i, sn);
    lemma_mul_inequality(i + 1, sm, sn);
    assert((i + 1) * sn == i * sn + sn) by (nonlinear_arith);
}

/// The torus's index buffer for `segments_major` rings of `segments_minor`
/// vertices: every cell of the wrapped grid becomes two triangles, and every
/// index names one of the `segments_major * segments_minor` vertices.
pub fn torus_index_data(segments_major: u16, segments_minor: u16) -> (r: Vec<u16>)
    requires
        1 <= segments_major,
        1 <= segments_minor,
        segments_major * segments_minor <= 65536,
    ensures
        r@.len() == 6 * (segments_major * segments_minor),
        forall|i: int, j: int|
            0 <= i < segments_major && 0 <= j < segments_minor ==> #[trigger] torus_quad_ok(
                r@,
                i,
                j,
                segments_major as int,
                segments_minor as int,
            ),
        forall|k: int| 0 <= k < r@.len() ==> r@[k] < segments_major * segments_minor,
{
    let sm = segments_major;
    let sn = segments_minor;
    let mut index_data: Vec<u16> = Vec::new();

    let mut i: u16 = 0;
    while i < sm
        invariant
            0 <= i <= sm,
            1 <= sm,
            1 <= sn,
            sm as int * sn as int <= 65536,
            index_data@.len() == 6 * (i as int * sn as int),
            forall|i2: int, j2: int|
                0 <= i2 < i && 0 <= j2 < sn ==> #[trigger] torus_quad_ok(
                    index_data@,
                    i2,
                    j2,
                    sm as int,
                    sn as int,
                ),
            forall|k: int| 0 <= k < index_data@.len() ==> index_data@[k] < sm as int * sn as int,
        decreases sm - i,
    {
        let next_i: u16 = (i + 1) % sm;

        let mut j: u16 = 0;
        while j < sn
            invariant
                0 <= j <= sn,
                0 <= i < sm,
                1 <= sm,
                1 <= sn,
                sm as int * sn as int <= 65536,
                next_i == (i + 1) as u16 % sm,
                next_i < sm,
                index_data@.len() == 6 * (i as int * sn as int) + 6 * j,
                forall|i2: int, j2: int|
                    0 <= i2 < i && 0 <= j2 < sn ==> #[trigger] torus_quad_ok(
                        index_data@,
                        i2,
                        j2,
                        sm as int,
                        sn as int,
                    ),
                forall|j2: int|
                    0 <= j2 < j ==> #[trigger] torus_quad_ok(
                        index_data@,
                        i as int,
                        j2,
                        sm as int,
                        sn as int,
                    ),
                forall|k: int|
                    0 <= k < index_data@.len() ==> index_data@[k] < sm as int * sn as int,
            decreases sn - j,
        {
            let next_j: u16 = (j + 1) % sn;

            proof {
                lemma_torus_vertex_bound(i as int, j as int, sm as int, sn as int);
                lemma_torus_vertex_bound(next_i as int, j as int, sm as int, sn as int);
                lemma_torus_vertex_bound(next_i as int, next_j as int, sm as int, sn as int);
                lemma_torus_vertex_bound(i as int, next_j as int, sm as int, sn as int);
            }

            let a32: u32 = (i as u32) * (sn as u32) + (j as u32);
            let b32: u32 = (next_i as u32) * (sn as u32) + (j as u32);
            let c32: u32 = (next_i as u32) * (sn as u32) + (next_j as u32);
            let d32: u32 = (i as u32) * (sn as u32) + (next_j as u32);

            let a: u16 = a32 as u16;
            let b: u16 = b32 as u16;
            let c: u16 = c32 as u16;
            let d: u16 = d32 as u16;

            let ghost pre = index_data@;

            index_data.push(a);
            index_data.push(b);
            index_data.push(c);
            index_data.push(c);
            index_data.push(d);
            index_data.push(a);

            proof {
                // earlier cells sit below the part just appended
                assert forall|i2: int, j2: int|
                    0 <= i2 < i && 0 <= j2 < sn implies #[trigger] torus_quad_ok(
                    index_data@,
                    i2,
                    j2,
                    sm as int,
                    sn as int,
                ) by {
                    assert(torus_quad_ok(pre, i2, j2, sm as int, sn as int));
                    assert(6 * (i2 * sn as int + j2) + 5 < 6 * (i as int * sn as int))
                        by (nonlinear_arith)
                        requires
                            0 <= i2 < i as int,
                            0 <= j2 < sn as int,
                    ;
                    assert(pre.len() == 6 * (i as int * sn as int) + 6 * (j as int));
                }
                assert forall|j2: int| 0 <= j2 < j + 1 implies #[trigger] torus_quad_ok(
                    index_data@,
                    i as int,
                    j2,
                    sm as int,
                    sn as int,
                ) by {
                    if j2 < j {
                        assert(torus_quad_ok(pre, i as int, j2, sm as int, sn as int));
                    } else {
                        assert(6 * (i as int * sn as int + j2) == pre.len() as int);
                    }
                }
            }

            j = j + 1;
        }

        proof {
            assert((i as int + 1) * (sn as int) == i as int * sn as int + sn as int)
                by (nonlinear_arith);
        }
        i = i + 1;
    }

    index_data
}

} // verus!
