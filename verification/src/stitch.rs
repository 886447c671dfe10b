//! Triangle indices that join each ring of a tube to the next.
//!
//! Vertex `local` of ring `ring` has the flat index `ring * stride + local`.
//! Between two neighbouring rings every edge of the cross-section, the one
//! from the last vertex back to the first included, spans a quad, and each
//! quad is cut into two triangles of the same winding.

use crate::error::ExtrudeError;
use vstd::arithmetic::div_mod::lemma_fundamental_div_mod_converse;
use vstd::prelude::*;

verus! {

/// The flat index of vertex `local` in ring `ring`.
pub open spec fn flat_index(stride: int, ring: int, local: int) -> int {
    ring * stride + local
}

/// The vertex after `local` on the cross-section, the first one after the last.
pub open spec fn next_local(stride: int, local: int) -> int {
    (local + 1) % stride
}

/// The six indices of the quad between `ring` and `ring + 1` at the edge
/// that starts at `local`: two triangles that share the quad's diagonal.
pub open spec fn quad(stride: int, ring: int, local: int) -> Seq<int> {
    let next = next_local(stride, local);
    seq![
        flat_index(stride, ring, local),
        flat_index(stride, ring + 1, local),
        flat_index(stride, ring + 1, next),
        flat_index(stride, ring, local),
        flat_index(stride, ring + 1, next),
        flat_index(stride, ring, next),
    ]
}

/// The index at place `k` of the list: quads come ring by ring and, within a
/// ring, edge by edge.
pub open spec fn index_at(stride: int, k: int) -> int {
    quad(stride, (k / 6) / stride, (k / 6) % stride)[k % 6]
}

/// The whole index list of a tube of `ring_count` rings of `stride` vertices.
pub open spec fn stitched(ring_count: int, stride: int) -> Seq<int> {
    Seq::new(((ring_count - 1) * stride * 6) as nat, |k: int| index_at(stride, k))
}

/// A vertex of one of `rings` rings has a flat index below `rings * stride`.
pub proof fn lemma_flat_index_bound(rings: int, stride: int, ring: int, local: int)
    by (nonlinear_arith)
    requires
        0 <= ring < rings,
        0 <= local < stride,
    ensures
        0 <= flat_index(stride, ring, local) < rings * stride,
        flat_index(stride, ring, local) < flat_index(stride, ring + 1, 0),
{
}

/// Ring and local vertex are recovered from a flat index by division.
pub proof fn lemma_flat_index_split(stride: int, ring: int, local: int)
    requires
        0 <= ring,
        0 <= local < stride,
    ensures
        flat_index(stride, ring, local) / stride == ring,
        flat_index(stride, ring, local) % stride == local,
{
    lemma_fundamental_div_mod_converse(flat_index(stride, ring, local), stride, ring, local);
}

/// Place `corner` of the quad at (`ring`, `local`) in the list holds that
/// quad's index.
pub proof fn lemma_index_at_quad(stride: int, ring: int, local: int, corner: int)
    requires
        0 <= ring,
        0 <= local < stride,
        0 <= corner < 6,
    ensures
        index_at(stride, flat_index(stride, ring, local) * 6 + corner) == quad(
            stride,
            ring,
            local,
        )[corner],
{
    let q = flat_index(stride, ring, local);
    assert(0 <= q) by (nonlinear_arith)
        requires
            q == ring * stride + local,
            0 <= ring,
            0 <= local < stride,
    ;
    lemma_fundamental_div_mod_converse(q * 6 + corner, 6, q, corner);
    lemma_flat_index_split(stride, ring, local);
}

/// A tube of `ring_count` rings has two triangles, of three indices each,
/// for each edge of the cross-section between each pair of neighbours.
pub proof fn triangle_count(ring_count: int, stride: int)
    requires
        ring_count >= 2,
        stride >= 2,
    ensures
        stitched(ring_count, stride).len() == (ring_count - 1) * stride * 2 * 3,
{
    assert((ring_count - 1) * stride * 6 == (ring_count - 1) * stride * 2 * 3 && (ring_count - 1)
        * stride * 6 >= 0) by (nonlinear_arith)
        requires
            ring_count >= 2,
            stride >= 2,
    ;
}

/// Every index of a tube names one of its `ring_count * stride` vertices.
pub proof fn indices_in_bounds(ring_count: int, stride: int, k: int)
    requires
        ring_count >= 2,
        stride >= 2,
        0 <= k < stitched(ring_count, stride).len(),
    ensures
        0 <= stitched(ring_count, stride)[k] < ring_count * stride,
{
    let edge = k / 6;
    let ring = edge / stride;
    let local = edge % stride;
    let next = next_local(stride, local);
    assert(0 <= ring < ring_count - 1 && 0 <= local < stride) by (nonlinear_arith)
        requires
            0 <= k < (ring_count - 1) * stride * 6,
            edge == k / 6,
            ring == edge / stride,
            local == edge % stride,
            stride >= 2,
    ;
    lemma_flat_index_bound(ring_count, stride, ring, local);
    lemma_flat_index_bound(ring_count, stride, ring + 1, local);
    lemma_flat_index_bound(ring_count, stride, ring, next);
    lemma_flat_index_bound(ring_count, stride, ring + 1, next);
}

/// The two triangles at each edge of each pair of neighbouring rings: with
/// `next` the vertex after `local`, they are (`ring`:`local`,
/// `ring + 1`:`local`, `ring + 1`:`next`) and (`ring`:`local`,
/// `ring + 1`:`next`, `ring`:`next`), in this order.
pub proof fn triangles_of_edge(ring_count: int, stride: int, ring: int, local: int)
    requires
        ring_count >= 2,
        stride >= 2,
        0 <= ring < ring_count - 1,
        0 <= local < stride,
    ensures
        0 <= flat_index(stride, ring, local) * 6,
        flat_index(stride, ring, local) * 6 + 6 <= stitched(ring_count, stride).len(),
        stitched(ring_count, stride).subrange(
            flat_index(stride, ring, local) * 6,
            flat_index(stride, ring, local) * 6 + 6,
        ) == quad(stride, ring, local),
{
    let base = flat_index(stride, ring, local) * 6;
    lemma_flat_index_bound(ring_count - 1, stride, ring, local);
    assert(stitched(ring_count, stride).len() == (ring_count - 1) * stride * 6) by (nonlinear_arith)
        requires
            stitched(ring_count, stride).len() == ((ring_count - 1) * stride * 6) as nat,
            ring_count >= 2,
            stride >= 2,
    ;
    let part = stitched(ring_count, stride).subrange(base, base + 6);
    assert forall|corner: int| 0 <= corner < 6 implies part[corner] == quad(
        stride,
        ring,
        local,
    )[corner] by {
        lemma_index_at_quad(stride, ring, local, corner);
    }
    assert(part =~= quad(stride, ring, local));
}

/// The tube is closed around its circumference: between every pair of
/// neighbouring rings, the edge from the last vertex of the cross-section
/// leads back to the first.
pub proof fn last_edge_returns_to_first(ring_count: int, stride: int, ring: int)
    requires
        ring_count >= 2,
        stride >= 2,
        0 <= ring < ring_count - 1,
    ensures
        0 <= flat_index(stride, ring, stride - 1) * 6,
        flat_index(stride, ring, stride - 1) * 6 + 6 <= stitched(ring_count, stride).len(),
        stitched(ring_count, stride).subrange(
            flat_index(stride, ring, stride - 1) * 6,
            flat_index(stride, ring, stride - 1) * 6 + 6,
        ) == seq![
            flat_index(stride, ring, stride - 1),
            flat_index(stride, ring + 1, stride - 1),
            flat_index(stride, ring + 1, 0),
            flat_index(stride, ring, stride - 1),
            flat_index(stride, ring + 1, 0),
            flat_index(stride, ring, 0),
        ],
{
    triangles_of_edge(ring_count, stride, ring, stride - 1);
    assert(next_local(stride, stride - 1) == 0);
    assert(quad(stride, ring, stride - 1) =~= seq![
        flat_index(stride, ring, stride - 1),
        flat_index(stride, ring + 1, stride - 1),
        flat_index(stride, ring + 1, 0),
        flat_index(stride, ring, stride - 1),
        flat_index(stride, ring + 1, 0),
        flat_index(stride, ring, 0),
    ]);
}

/// The indices that stitch `ring_count` rings of `stride` vertices each.
///
/// A tube needs at least two rings and a cross-section of at least two
/// vertices, and each of its vertices an index that fits a `u32`: other
/// counts are refused, in this order.
pub fn stitch_rings(ring_count: usize, stride: usize) -> (result: Result<Vec<u32>, ExtrudeError>)
    ensures
        match result {
            Ok(indices) => {
                &&& ring_count >= 2
                &&& stride >= 2
                &&& ring_count * stride <= u32::MAX
                &&& indices@.map_values(|i: u32| i as int) == stitched(
                    ring_count as int,
                    stride as int,
                )
                &&& indices@.len() == (ring_count - 1) * stride * 2 * 3
                &&& forall|k: int|
                    0 <= k < indices@.len() ==> #[trigger] indices@[k] < ring_count * stride
            },
            Err(e) => {
                if ring_count < 2 {
                    e == ExtrudeError::InvalidRingCount
                } else if stride < 2 {
                    e == ExtrudeError::DegenerateCrossSection
                } else {
                    e == ExtrudeError::TooManyVertices && ring_count * stride > u32::MAX
                }
            },
        },
{
    if ring_count < 2 {
        return Err(ExtrudeError::InvalidRingCount);
    }
    if stride < 2 {
        return Err(ExtrudeError::DegenerateCrossSection);
    }
    let total: usize = match ring_count.checked_mul(stride) {
        Some(total) => total,
        None => {
            return Err(ExtrudeError::TooManyVertices);
        },
    };
    if total > 0xFFFF_FFFF {
        return Err(ExtrudeError::TooManyVertices);
    }
    let mut indices: Vec<u32> = Vec::new();
    let mut ring: usize = 0;
    while ring < ring_count - 1
        invariant
            2 <= ring_count,
            2 <= stride,
            total == ring_count * stride,
            total <= u32::MAX,
            ring <= ring_count - 1,
            indices@.len() == flat_index(stride as int, ring as int, 0) * 6,
            forall|k: int|
                0 <= k < indices@.len() ==> #[trigger] indices@[k] as int == index_at(
                    stride as int,
                    k,
                ),
        decreases ring_count - ring,
    {
        let mut local: usize = 0;
        while local < stride
            invariant
                2 <= ring_count,
                2 <= stride,
                total == ring_count * stride,
                total <= u32::MAX,
                ring < ring_count - 1,
                local <= stride,
                indices@.len() == flat_index(stride as int, ring as int, local as int) * 6,
                forall|k: int|
                    0 <= k < indices@.len() ==> #[trigger] indices@[k] as int == index_at(
                        stride as int,
                        k,
                    ),
            decreases stride - local,
        {
            let next: usize = (local + 1) % stride;
            proof {
                lemma_flat_index_bound(ring_count as int, stride as int, ring as int, local as int);
                lemma_flat_index_bound(
                    ring_count as int,
                    stride as int,
                    ring as int + 1,
                    local as int,
                );
                lemma_flat_index_bound(ring_count as int, stride as int, ring as int, next as int);
                lemma_flat_index_bound(
                    ring_count as int,
                    stride as int,
                    ring as int + 1,
                    next as int,
                );
            }
            let near: usize = ring * stride;
            let far: usize = (ring + 1) * stride;
            let a: u32 = (near + local) as u32;
            let b: u32 = (far + local) as u32;
            let c: u32 = (far + next) as u32;
            let d: u32 = (near + next) as u32;
            let ghost before = indices@;
            indices.push(a);
            indices.push(b);
            indices.push(c);
            indices.push(a);
            indices.push(c);
            indices.push(d);
            proof {
                let base = flat_index(stride as int, ring as int, local as int) * 6;
                assert(before.len() == base);
                assert forall|k: int| 0 <= k < indices@.len() implies #[trigger] indices@[k] as int
                    == index_at(stride as int, k) by {
                    if k >= base {
                        lemma_index_at_quad(stride as int, ring as int, local as int, k - base);
                    } else {
                        assert(indices@[k] == before[k]);
                    }
                }
            }
            local = local + 1;
        }
        proof {
            assert(flat_index(stride as int, ring as int, stride as int) == flat_index(
                stride as int,
                ring as int + 1,
                0,
            )) by (nonlinear_arith);
        }
        ring = ring + 1;
    }
    proof {
        assert(flat_index(stride as int, ring_count as int - 1, 0) * 6 == (ring_count - 1) * stride
            * 6) by (nonlinear_arith);
        assert(indices@.map_values(|i: u32| i as int) =~= stitched(
            ring_count as int,
            stride as int,
        ));
        triangle_count(ring_count as int, stride as int);
        assert forall|k: int| 0 <= k < indices@.len() implies #[trigger] indices@[k] < ring_count
            * stride by {
            indices_in_bounds(ring_count as int, stride as int, k);
        }
    }
    Ok(indices)
}

} // verus!
