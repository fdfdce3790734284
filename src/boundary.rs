//! Boundary rings: the options they are generated with, and the flat form in
//! which they cross a channel that carries no nested arrays.
//!
//! Vertex coordinates are carried as an opaque `T`, so that nothing here
//! depends on how a coordinate is represented.
use vstd::prelude::*;

use crate::error::GridError;

verus! {

/// How a boundary ring is generated.
#[derive(Debug, Clone, Copy)]
pub struct BoundaryOptions {
    /// Whether the first vertex is repeated at the end of the ring.
    pub closed_ring: bool,
    /// Segments per edge; `None` lets the engine pick one for the resolution.
    pub segments: Option<i32>,
}

impl BoundaryOptions {
    /// A segment count, where there is one, is positive.
    pub open spec fn wf(&self) -> bool {
        self.segments matches Some(s) ==> s > 0
    }
}

/// The segment count that is kept from what a caller supplied.
pub open spec fn kept_segments(segments: Option<i32>) -> Option<i32> {
    match segments {
        Some(s) => if s > 0 {
            Some(s)
        } else {
            None
        },
        None => None,
    }
}

/// Builds boundary options, treating a segment count of zero or less as unspecified.
pub fn normalize_boundary_options(closed_ring: bool, segments: Option<i32>) -> (r:
    BoundaryOptions)
    ensures
        r.wf(),
        r.closed_ring == closed_ring,
        r.segments == kept_segments(segments),
{
    let segments = match segments {
        Some(s) => if s > 0 {
            Some(s)
        } else {
            None
        },
        None => None,
    };
    BoundaryOptions { closed_ring, segments }
}

/// The options of the one-argument boundary: a closed ring, engine-chosen segments.
pub fn boundary_options_default() -> (r: BoundaryOptions)
    ensures
        r.wf(),
        r.closed_ring,
        r.segments is None,
{
    normalize_boundary_options(true, None)
}

/// The options of the boundary that chooses whether the ring is closed.
pub fn boundary_options_closed(closed_ring: bool) -> (r: BoundaryOptions)
    ensures
        r.wf(),
        r.closed_ring == closed_ring,
        r.segments is None,
{
    normalize_boundary_options(closed_ring, None)
}

/// The options of the boundary that also chooses the segment count.
pub fn boundary_options_full(closed_ring: bool, segments: i32) -> (r: BoundaryOptions)
    ensures
        r.wf(),
        r.closed_ring == closed_ring,
        r.segments == kept_segments(Some(segments)),
{
    normalize_boundary_options(closed_ring, Some(segments))
}

/// The interleaved sequence `[x1, y1, x2, y2, ...]` of a list of pairs.
pub open spec fn flat_of<T>(pairs: Seq<(T, T)>) -> Seq<T> {
    Seq::new(
        2 * pairs.len(),
        |i: int|
            if i % 2 == 0 {
                pairs[i / 2].0
            } else {
                pairs[i / 2].1
            },
    )
}

/// The pairs of an interleaved sequence, positions `2k` and `2k + 1` together.
pub open spec fn pairs_of<T>(flat: Seq<T>) -> Seq<(T, T)> {
    Seq::new(flat.len() / 2, |k: int| (flat[2 * k], flat[2 * k + 1]))
}

/// Emits the vertices of a ring as one flat, interleaved sequence.
pub fn flatten_ring<T: Copy>(ring: &Vec<(T, T)>) -> (r: Vec<T>)
    requires
        2 * ring@.len() <= usize::MAX,
    ensures
        r@ == flat_of(ring@),
{
    let mut r: Vec<T> = Vec::new();
    let mut k: usize = 0;
    while k < ring.len()
        invariant
            k <= ring@.len(),
            2 * ring@.len() <= usize::MAX,
            r@ == flat_of(ring@.take(k as int)),
        decreases ring@.len() - k,
    {
        let (x, y) = ring[k];
        proof {
            assert(flat_of(ring@.take(k + 1)) =~= flat_of(ring@.take(k as int)).push(x).push(y));
        }
        r.push(x);
        r.push(y);
        k += 1;
    }
    assert(ring@.take(k as int) =~= ring@);
    r
}

/// Regroups a flat, interleaved sequence into its pairs; an odd length is a
/// broken transfer, not an empty ring.
pub fn reconstruct_ring<T: Copy>(flat: &Vec<T>) -> (r: Result<Vec<(T, T)>, GridError>)
    ensures
        flat@.len() % 2 == 0 ==> (r matches Ok(v) && v@ == pairs_of(flat@)),
        flat@.len() % 2 == 1 ==> (r matches Err(GridError::MalformedRing { length })
            && length == flat@.len()),
{
    if flat.len() % 2 == 1 {
        return Err(GridError::MalformedRing { length: flat.len() });
    }
    let length = flat.len();
    let n = length / 2;
    let mut v: Vec<(T, T)> = Vec::new();
    let mut k: usize = 0;
    while k < n
        invariant
            length == flat@.len(),
            n == length / 2,
            2 * n <= length,
            k <= n,
            v@ == pairs_of(flat@).take(k as int),
        decreases n - k,
    {
        let x = flat[2 * k];
        let y = flat[2 * k + 1];
        v.push((x, y));
        proof {
            assert(v@ =~= pairs_of(flat@).take(k + 1));
        }
        k += 1;
    }
    assert(pairs_of(flat@).take(n as int) =~= pairs_of(flat@));
    Ok(v)
}

/// Regrouping the flat form of a ring gives back the ring, pair for pair and
/// in order.
pub proof fn lemma_reconstruct_flattened<T>(ring: Seq<(T, T)>)
    ensures
        flat_of(ring).len() % 2 == 0,
        pairs_of(flat_of(ring)) == ring,
{
    let flat = flat_of(ring);
    assert(flat.len() / 2 == ring.len());
    assert forall|k: int| 0 <= k < ring.len() implies #[trigger] pairs_of(flat)[k] == ring[k] by {
        assert((2 * k) / 2 == k);
        assert((2 * k + 1) / 2 == k);
        assert((2 * k) % 2 == 0);
        assert((2 * k + 1) % 2 == 1);
    }
    assert(pairs_of(flat) =~= ring);
}

/// Flattening the pairs of an even-length sequence gives back the sequence.
pub proof fn lemma_flatten_reconstructed<T>(flat: Seq<T>)
    requires
        flat.len() % 2 == 0,
    ensures
        flat_of(pairs_of(flat)) == flat,
{
    let pairs = pairs_of(flat);
    assert forall|i: int| 0 <= i < flat.len() implies #[trigger] flat_of(pairs)[i] == flat[i] by {
        if i % 2 == 0 {
            assert(2 * (i / 2) == i);
        } else {
            assert(2 * (i / 2) + 1 == i);
        }
    }
    assert(flat_of(pairs) =~= flat);
}

/// The flat form of the ring the engine generated, or absence where the cell
/// does not decode.
pub fn boundary_flat<T: Copy>(engine: Result<Vec<(T, T)>, String>) -> (r: Option<Vec<T>>)
    requires
        engine matches Ok(ring) ==> 2 * ring@.len() <= usize::MAX,
    ensures
        engine is Err ==> r is None,
        engine matches Ok(ring) ==> (r matches Some(v) && v@ == flat_of(ring@)),
        r matches Some(v) ==> v@.len() % 2 == 0,
{
    match engine {
        Ok(ring) => Some(flatten_ring(&ring)),
        Err(_) => None,
    }
}

/// Regroups a flat boundary into vertex pairs; absence stays absence.
pub fn boundary_pairs<T: Copy>(flat: Option<Vec<T>>) -> (r: Result<Option<Vec<(T, T)>>, GridError>)
    ensures
        flat is None ==> r matches Ok(None),
        flat matches Some(f) ==> (f@.len() % 2 == 0 ==> (r matches Ok(Some(v)) && v@ == pairs_of(
            f@,
        ))),
        flat matches Some(f) ==> (f@.len() % 2 == 1 ==> (r matches Err(
            GridError::MalformedRing { length },
        ) && length == f@.len())),
{
    match flat {
        None => Ok(None),
        Some(f) => match reconstruct_ring(&f) {
            Ok(v) => Ok(Some(v)),
            Err(e) => Err(e),
        },
    }
}

/// The center of a cell as `[x, y]`, or absence where the cell does not decode.
pub fn center_pair<T: Copy>(engine: Result<(T, T), String>) -> (r: Option<Vec<T>>)
    ensures
        engine is Err ==> r is None,
        engine matches Ok(p) ==> (r matches Some(v) && v@ == seq![p.0, p.1]),
{
    match engine {
        Ok((x, y)) => {
            let mut v: Vec<T> = Vec::new();
            v.push(x);
            v.push(y);
            Some(v)
        },
        Err(_) => None,
    }
}

} // verus!
