//! The triangle strip that fills a closed ring of points with color.
//!
//! The ring is shrunk towards a center point in `STEPS_TO_CENTER` steps.
//! Ring `r` (for `r < STEPS_TO_CENTER`) holds one vertex per point of the
//! outer ring, the last vertex is the center itself. The strip walks around
//! each ring and zig-zags between a vertex and the same point on the next
//! ring inwards (or the center, from the innermost ring).

use vstd::prelude::*;
use vstd::arithmetic::div_mod::{
    lemma_div_pos_is_pos, lemma_fundamental_div_mod, lemma_fundamental_div_mod_converse_div,
    lemma_fundamental_div_mod_converse_mod, lemma_mod_pos_bound,
};

verus! {

/// Number of rings, the outer ring included, between the outer ring and the center.
pub const STEPS_TO_CENTER: u32 = 40;

/// Index of the vertex on ring `ring` at point `point`, for rings of `n` points.
pub open spec fn ring_vertex(n: int, ring: int, point: int) -> int {
    ring * n + point
}

/// Index of the center vertex: it comes after all rings.
pub open spec fn center_vertex(n: int) -> int {
    STEPS_TO_CENTER * n
}

/// Number of vertices of the strip: all rings and the center.
pub open spec fn strip_vertex_count(n: int) -> int {
    STEPS_TO_CENTER * n + 1
}

/// The vertex one step closer to the center than the vertex on ring `ring`
/// at point `point`: the same point on the next ring, or the center when
/// `ring` is the innermost ring.
pub open spec fn inward_neighbor(n: int, ring: int, point: int) -> int {
    if ring + 1 < STEPS_TO_CENTER {
        ring_vertex(n, ring + 1, point)
    } else {
        center_vertex(n)
    }
}

/// The index at position `j` of the strip over rings of `n` points.
///
/// Position 0 repeats the last vertex of the outer ring, so that the first
/// triangle closes the outer ring. After that, vertex `k` (on ring `k / n`,
/// point `k % n`) stands at position `2 * k + 1` and its inward neighbor at
/// position `2 * k + 2`.
pub open spec fn strip_index_at(n: int, j: int) -> int {
    if j == 0 {
        n - 1
    } else {
        let k = (j - 1) / 2;
        if (j - 1) % 2 == 0 {
            ring_vertex(n, k / n, k % n)
        } else {
            inward_neighbor(n, k / n, k % n)
        }
    }
}

/// The whole index sequence of the strip over rings of `n` points.
pub open spec fn strip_indices(n: int) -> Seq<u32> {
    Seq::new((2 * STEPS_TO_CENTER * n + 1) as nat, |j: int| strip_index_at(n, j) as u32)
}

/// Whether a strip over rings of `n` points can be built: there is at least
/// one point, every vertex index fits in a `u32` and the index list fits in
/// memory.
pub open spec fn strip_fits(n: int) -> bool {
    &&& 1 <= n
    &&& STEPS_TO_CENTER * n <= u32::MAX
    &&& 2 * STEPS_TO_CENTER * n + 1 <= usize::MAX
}

proof fn lemma_ring_vertex_bounds(n: int, ring: int, point: int)
    requires
        1 <= n,
        0 <= ring < STEPS_TO_CENTER,
        0 <= point < n,
    ensures
        0 <= ring_vertex(n, ring, point) < center_vertex(n),
        ring_vertex(n, ring, point) + n == ring_vertex(n, ring + 1, point),
        ring_vertex(n, ring, point) / n == ring,
        ring_vertex(n, ring, point) % n == point,
        ring + 1 < STEPS_TO_CENTER ==> ring_vertex(n, ring + 1, point) < center_vertex(n),
{
    assert(0 <= ring * n + point < STEPS_TO_CENTER * n) by (nonlinear_arith)
        requires
            1 <= n,
            0 <= ring < STEPS_TO_CENTER,
            0 <= point < n,
    ;
    assert((ring + 1) * n == ring * n + n) by (nonlinear_arith);
    assert(ring + 1 < STEPS_TO_CENTER ==> (ring + 1) * n + point < STEPS_TO_CENTER * n)
        by (nonlinear_arith)
        requires
            1 <= n,
            0 <= point < n,
    ;
    lemma_fundamental_div_mod_converse_div(ring * n + point, n, ring, point);
    lemma_fundamental_div_mod_converse_mod(ring * n + point, n, ring, point);
}

/// Builds the index list of the triangle strip over rings of
/// `points_per_ring` points, as drawn with `GL_TRIANGLE_STRIP`.
pub fn triangle_strip_indices(points_per_ring: usize) -> (indices: Vec<u32>)
    requires
        strip_fits(points_per_ring as int),
    ensures
        indices@ == strip_indices(points_per_ring as int),
        indices@.len() == 2 * STEPS_TO_CENTER * points_per_ring + 1,
        indices@[0] == points_per_ring - 1,
        forall|k: int|
            0 <= k < STEPS_TO_CENTER * points_per_ring ==> #[trigger] indices@[2 * k + 1] == k,
        forall|k: int|
            0 <= k < STEPS_TO_CENTER * points_per_ring ==> #[trigger] indices@[2 * k + 2] == if k
                + points_per_ring < STEPS_TO_CENTER * points_per_ring {
                k + points_per_ring
            } else {
                STEPS_TO_CENTER * points_per_ring
            },
{
    let ghost nn = points_per_ring as int;
    let n = points_per_ring as u32;
    assert(STEPS_TO_CENTER * n <= u32::MAX);
    let center: u32 = STEPS_TO_CENTER * n;
    let mut indices: Vec<u32> = Vec::new();
    indices.push(n - 1);
    let mut ring: u32 = 0;
    while ring < STEPS_TO_CENTER
        invariant
            nn == n,
            strip_fits(nn),
            center == center_vertex(nn),
            ring <= STEPS_TO_CENTER,
            indices@.len() == 2 * (ring * nn) + 1,
            forall|j: int| 0 <= j < indices@.len() ==> indices@[j] == strip_index_at(nn, j) as u32,
        decreases STEPS_TO_CENTER - ring,
    {
        let mut point: u32 = 0;
        while point < n
            invariant
                nn == n,
                strip_fits(nn),
                center == center_vertex(nn),
                ring < STEPS_TO_CENTER,
                point <= n,
                indices@.len() == 2 * (ring * nn + point) + 1,
                forall|j: int| 0 <= j < indices@.len() ==> indices@[j] == strip_index_at(nn, j) as u32,
            decreases n - point,
        {
            proof {
                lemma_ring_vertex_bounds(nn, ring as int, point as int);
            }
            let k: u32 = ring * n + point;
            let neighbor: u32 = if ring + 1 < STEPS_TO_CENTER {
                (ring + 1) * n + point
            } else {
                center
            };
            let ghost before = indices@;
            indices.push(k);
            indices.push(neighbor);
            proof {
                let kk = ring_vertex(nn, ring as int, point as int);
                assert(indices@.len() == 2 * kk + 3);
                assert forall|j: int| 0 <= j < indices@.len() implies indices@[j] == strip_index_at(nn, j) as u32 by {
                    if j == 2 * kk + 1 {
                        assert((j - 1) / 2 == kk);
                        assert((j - 1) % 2 == 0);
                    } else if j == 2 * kk + 2 {
                        assert((j - 1) / 2 == kk);
                        assert((j - 1) % 2 == 1);
                    } else {
                        assert(indices@[j] == before[j]);
                    }
                }
            }
            point += 1;
        }
        proof {
            assert((ring + 1) * nn == ring * nn + nn) by (nonlinear_arith);
        }
        ring += 1;
    }
    assert(indices@ =~= strip_indices(nn));
    proof {
        lemma_strip_visits_vertices_in_storage_order(nn);
    }
    indices
}

/// Where a vertex of the strip comes from.
#[derive(Clone, Copy, Debug, PartialEq, Eq)]
pub enum VertexSlot {
    /// The point `point` of the outer ring, moved `ring / STEPS_TO_CENTER`
    /// of the way towards the center.
    Ring { ring: u32, point: u32 },
    /// The center point itself.
    Center,
}

/// The slot of vertex `v` of the strip over rings of `n` points.
pub open spec fn strip_vertex_slot(n: int, v: int) -> VertexSlot {
    if v < center_vertex(n) {
        VertexSlot::Ring { ring: (v / n) as u32, point: (v % n) as u32 }
    } else {
        VertexSlot::Center
    }
}

/// The slots of all vertices of the strip over rings of `n` points, in the
/// order in which the vertices are stored.
pub open spec fn strip_vertex_slots(n: int) -> Seq<VertexSlot> {
    Seq::new(strip_vertex_count(n) as nat, |v: int| strip_vertex_slot(n, v))
}

/// Lists, in storage order, where each vertex of the strip over rings of
/// `points_per_ring` points comes from: ring after ring, point after point,
/// and the center last.
pub fn triangle_strip_vertex_slots(points_per_ring: usize) -> (slots: Vec<VertexSlot>)
    requires
        strip_fits(points_per_ring as int),
    ensures
        slots@ == strip_vertex_slots(points_per_ring as int),
        slots@.len() == STEPS_TO_CENTER * points_per_ring + 1,
        forall|ring: int, point: int|
            0 <= ring < STEPS_TO_CENTER && 0 <= point < points_per_ring ==> #[trigger] slots@[ring
                * points_per_ring + point] == (VertexSlot::Ring { ring: ring as u32, point: point as u32 }),
        slots@[STEPS_TO_CENTER * points_per_ring] == VertexSlot::Center,
{
    let ghost nn = points_per_ring as int;
    let n = points_per_ring as u32;
    let mut slots: Vec<VertexSlot> = Vec::new();
    let mut ring: u32 = 0;
    while ring < STEPS_TO_CENTER
        invariant
            nn == n,
            strip_fits(nn),
            ring <= STEPS_TO_CENTER,
            slots@.len() == ring * nn,
            forall|v: int| 0 <= v < slots@.len() ==> slots@[v] == strip_vertex_slot(nn, v),
        decreases STEPS_TO_CENTER - ring,
    {
        let mut point: u32 = 0;
        while point < n
            invariant
                nn == n,
                strip_fits(nn),
                ring < STEPS_TO_CENTER,
                point <= n,
                slots@.len() == ring * nn + point,
                forall|v: int| 0 <= v < slots@.len() ==> slots@[v] == strip_vertex_slot(nn, v),
            decreases n - point,
        {
            proof {
                lemma_ring_vertex_bounds(nn, ring as int, point as int);
            }
            slots.push(VertexSlot::Ring { ring, point });
            point += 1;
        }
        proof {
            assert((ring + 1) * nn == ring * nn + nn) by (nonlinear_arith);
        }
        ring += 1;
    }
    slots.push(VertexSlot::Center);
    assert(slots@ =~= strip_vertex_slots(nn));
    proof {
        lemma_vertex_slots_in_storage_order(nn);
    }
    slots
}

/// Splits a vertex index below the center into its ring and point.
proof fn lemma_flat_vertex(n: int, k: int)
    requires
        1 <= n,
        0 <= k < center_vertex(n),
    ensures
        0 <= k / n < STEPS_TO_CENTER,
        0 <= k % n < n,
        ring_vertex(n, k / n, k % n) == k,
{
    lemma_fundamental_div_mod(k, n);
    lemma_mod_pos_bound(k, n);
    lemma_div_pos_is_pos(k, n);
    let q = k / n;
    let r = k % n;
    assert(q * n == n * q) by (nonlinear_arith);
    assert(q < STEPS_TO_CENTER) by (nonlinear_arith)
        requires
            k == n * q + r,
            0 <= r,
            1 <= n,
            k < STEPS_TO_CENTER * n,
    ;
}

/// Every index of the strip names a stored vertex: it is below the number
/// of vertices, so drawing the strip never reads past the vertex buffer.
pub proof fn lemma_strip_indices_in_bounds(n: int)
    requires
        strip_fits(n),
    ensures
        strip_indices(n).len() == 2 * STEPS_TO_CENTER * n + 1,
        forall|j: int|
            #![trigger strip_indices(n)[j]]
            #![trigger strip_index_at(n, j)]
            0 <= j < strip_indices(n).len() ==> {
                &&& 0 <= strip_index_at(n, j)
                &&& strip_index_at(n, j) < strip_vertex_count(n)
                &&& strip_indices(n)[j] == strip_index_at(n, j)
            },
{
    assert forall|j: int|
        #![trigger strip_indices(n)[j]]
        #![trigger strip_index_at(n, j)]
        0 <= j < strip_indices(n).len() implies {
            &&& 0 <= strip_index_at(n, j)
            &&& strip_index_at(n, j) < strip_vertex_count(n)
            &&& strip_indices(n)[j] == strip_index_at(n, j)
        } by {
        if j > 0 {
            let k = (j - 1) / 2;
            assert(0 <= k < center_vertex(n)) by (nonlinear_arith)
                requires
                    k == (j - 1) / 2,
                    1 <= j < 2 * STEPS_TO_CENTER * n + 1,
            ;
            lemma_flat_vertex(n, k);
            lemma_ring_vertex_bounds(n, k / n, k % n);
        }
    }
    assert(strip_indices(n).len() == 2 * STEPS_TO_CENTER * n + 1);
}

/// Whether vertex `v` occurs among the indices of the strip over rings of
/// `n` points.
pub open spec fn strip_visits(n: int, v: int) -> bool {
    exists|j: int| 0 <= j < strip_indices(n).len() && #[trigger] strip_indices(n)[j] == v
}

/// The strip reaches every vertex: each ring vertex and the center occur
/// among its indices.
pub proof fn lemma_strip_covers_every_vertex(n: int)
    requires
        strip_fits(n),
    ensures
        forall|v: int| 0 <= v < strip_vertex_count(n) ==> #[trigger] strip_visits(n, v),
{
    lemma_strip_indices_in_bounds(n);
    assert(strip_indices(n).len() == 80 * n + 1);
    assert(center_vertex(n) == 40 * n);
    assert forall|v: int| 0 <= v < strip_vertex_count(n) implies #[trigger] strip_visits(n, v) by {
        if v < center_vertex(n) {
            lemma_flat_vertex(n, v);
            let j = 2 * v + 1;
            assert((j - 1) / 2 == v);
            assert((j - 1) % 2 == 0);
            assert(strip_index_at(n, j) == v);
            assert(strip_indices(n)[j] == v);
        } else {
            let k = center_vertex(n) - 1;
            lemma_flat_vertex(n, k);
            lemma_ring_vertex_bounds(n, k / n, k % n);
            assert(k / n + 1 == STEPS_TO_CENTER) by (nonlinear_arith)
                requires
                    k == (k / n) * n + k % n,
                    k == STEPS_TO_CENTER * n - 1,
                    0 <= k % n < n,
            ;
            let j = 2 * k + 2;
            assert((j - 1) / 2 == k);
            assert((j - 1) % 2 == 1);
            assert(strip_index_at(n, j) == v);
            assert(strip_indices(n)[j] == v);
        }
    }
}

/// Each step of the strip goes inwards: the vertex at odd position
/// `2 * k + 1` lies on some ring `r` at some point `p`, and the vertex right
/// after it is the same point `p` on ring `r + 1`, or the center when `r` is
/// the innermost ring.
pub proof fn lemma_strip_steps_inward(n: int)
    requires
        strip_fits(n),
    ensures
        forall|k: int|
            0 <= k < center_vertex(n) ==> {
                let outer = strip_vertex_slots(n)[strip_indices(n)[2 * k + 1] as int];
                let inner = strip_vertex_slots(n)[#[trigger] strip_indices(n)[2 * k + 2] as int];
                &&& outer matches VertexSlot::Ring { ring, point }
                &&& if ring + 1 < STEPS_TO_CENTER {
                    inner == VertexSlot::Ring { ring: (ring + 1) as u32, point }
                } else {
                    inner == VertexSlot::Center
                }
            },
{
    lemma_strip_indices_in_bounds(n);
    assert(strip_indices(n).len() == 80 * n + 1);
    assert(center_vertex(n) == 40 * n);
    assert forall|k: int| 0 <= k < center_vertex(n) implies {
        let outer = strip_vertex_slots(n)[strip_indices(n)[2 * k + 1] as int];
        let inner = strip_vertex_slots(n)[#[trigger] strip_indices(n)[2 * k + 2] as int];
        &&& outer matches VertexSlot::Ring { ring, point }
        &&& if ring + 1 < STEPS_TO_CENTER {
            inner == VertexSlot::Ring { ring: (ring + 1) as u32, point }
        } else {
            inner == VertexSlot::Center
        }
    } by {
        lemma_flat_vertex(n, k);
        let ring = k / n;
        let point = k % n;
        lemma_ring_vertex_bounds(n, ring, point);
        assert((2 * k + 1 - 1) / 2 == k);
        assert((2 * k + 1 - 1) % 2 == 0);
        assert((2 * k + 2 - 1) / 2 == k);
        assert((2 * k + 2 - 1) % 2 == 1);
        assert(strip_index_at(n, 2 * k + 1) == k);
        assert(strip_indices(n)[2 * k + 1] == k);
        if ring + 1 < STEPS_TO_CENTER {
            let inner = ring_vertex(n, ring + 1, point);
            lemma_ring_vertex_bounds(n, ring + 1, point);
            assert(strip_indices(n)[2 * k + 2] == inner);
        } else {
            assert(strip_indices(n)[2 * k + 2] == center_vertex(n));
        }
    }
}

/// The strip opens with the seam of the outer ring: its first two indices
/// are the last and the first point of the outer ring, so the first
/// triangle closes the ring.
pub proof fn lemma_strip_closes_outer_ring(n: int)
    requires
        strip_fits(n),
    ensures
        strip_vertex_slots(n)[strip_indices(n)[0] as int] == (VertexSlot::Ring { ring: 0, point: (n - 1) as u32 }),
        strip_vertex_slots(n)[strip_indices(n)[1] as int] == (VertexSlot::Ring { ring: 0, point: 0 }),
{
    lemma_strip_indices_in_bounds(n);
    assert(strip_indices(n).len() == 80 * n + 1);
    assert(center_vertex(n) == 40 * n);
    lemma_flat_vertex(n, n - 1);
    lemma_ring_vertex_bounds(n, 0, n - 1);
    lemma_ring_vertex_bounds(n, 0, 0);
    assert(strip_index_at(n, 0) == n - 1);
    assert((1 - 1) / 2 == 0 && (1 - 1) % 2 == 0);
    assert(0int / n == 0 && 0int % n == 0);
    assert(strip_index_at(n, 1) == 0);
    assert(strip_indices(n)[0] == n - 1);
    assert(strip_indices(n)[1] == 0);
}

/// The strip visits the ring vertices in the order in which they are
/// stored: after the opening index `n - 1`, position `2 * k + 1` holds
/// vertex `k` itself, point after point around each ring and ring after
/// ring, and position `2 * k + 2` holds the vertex `n` further on (the same
/// point on the next ring inwards), or the center once that would lie past
/// the last ring.
pub proof fn lemma_strip_visits_vertices_in_storage_order(n: int)
    requires
        strip_fits(n),
    ensures
        strip_indices(n).len() == 2 * STEPS_TO_CENTER * n + 1,
        strip_indices(n)[0] == n - 1,
        forall|k: int| 0 <= k < STEPS_TO_CENTER * n ==> #[trigger] strip_indices(n)[2 * k + 1] == k,
        forall|k: int|
            0 <= k < STEPS_TO_CENTER * n ==> #[trigger] strip_indices(n)[2 * k + 2] == if k + n
                < STEPS_TO_CENTER * n {
                k + n
            } else {
                STEPS_TO_CENTER * n
            },
{
    lemma_strip_indices_in_bounds(n);
    assert(strip_indices(n).len() == 80 * n + 1);
    assert(strip_index_at(n, 0) == n - 1);
    assert forall|k: int| 0 <= k < STEPS_TO_CENTER * n implies #[trigger] strip_indices(n)[2 * k + 1]
        == k by {
        lemma_flat_vertex(n, k);
        assert((2 * k + 1 - 1) / 2 == k);
        assert((2 * k + 1 - 1) % 2 == 0);
        assert(strip_index_at(n, 2 * k + 1) == k);
    }
    assert forall|k: int| 0 <= k < STEPS_TO_CENTER * n implies #[trigger] strip_indices(n)[2 * k + 2]
        == if k + n < STEPS_TO_CENTER * n {
        k + n
    } else {
        STEPS_TO_CENTER * n
    } by {
        lemma_flat_vertex(n, k);
        let q = k / n;
        let r = k % n;
        lemma_ring_vertex_bounds(n, q, r);
        assert((2 * k + 2 - 1) / 2 == k);
        assert((2 * k + 2 - 1) % 2 == 1);
        assert(q + 1 < STEPS_TO_CENTER <==> k + n < STEPS_TO_CENTER * n) by (nonlinear_arith)
            requires
                k == q * n + r,
                0 <= r < n,
                0 <= q < STEPS_TO_CENTER,
        ;
    }
}

/// Vertex `r * n + p` of the strip is point `p` of the outer ring moved
/// onto ring `r`, for every ring and every point, and the vertex after the
/// last ring is the center.
pub proof fn lemma_vertex_slots_in_storage_order(n: int)
    requires
        strip_fits(n),
    ensures
        strip_vertex_slots(n).len() == STEPS_TO_CENTER * n + 1,
        forall|ring: int, point: int|
            0 <= ring < STEPS_TO_CENTER && 0 <= point < n ==> #[trigger] strip_vertex_slots(n)[ring * n
                + point] == (VertexSlot::Ring { ring: ring as u32, point: point as u32 }),
        strip_vertex_slots(n)[STEPS_TO_CENTER * n] == VertexSlot::Center,
{
    assert forall|ring: int, point: int|
        0 <= ring < STEPS_TO_CENTER && 0 <= point < n implies #[trigger] strip_vertex_slots(n)[ring * n
        + point] == (VertexSlot::Ring { ring: ring as u32, point: point as u32 }) by {
        lemma_ring_vertex_bounds(n, ring, point);
    }
}

} // verus!
