//! The A5 grid engine as this library sees it: each entry point of the `a5`
//! crate that the library calls, with what its source guarantees.
use vstd::prelude::*;

verus! {

/// 4 to the power `n`: the grid's branching factor from resolution 1 on.
pub open spec fn pow4(n: nat) -> int
    decreases n,
{
    if n == 0 {
        1
    } else {
        4 * pow4((n - 1) as nat)
    }
}

/// The number of cells the engine reports at a resolution (0 for a negative
/// one; 12 base cells; 5 children under each base cell; 4 below that; the
/// three finest levels carry the engine's own rounded constants).
pub open spec fn num_cells_at(resolution: int) -> int {
    if resolution < 0 {
        0
    } else if resolution == 0 {
        12
    } else if resolution == 28 {
        1080863910568919000
    } else if resolution == 29 {
        4323455642275676000
    } else if resolution == 30 {
        17293822569102705000
    } else {
        60 * pow4((resolution - 1) as nat)
    }
}

/// The identifier of the base cell of origin `k`: the origin in the top six
/// bits, and the resolution-0 marker bit just below them.
pub open spec fn base_cell(k: int) -> u64 {
    (k * 0x0400_0000_0000_0000 + 0x0200_0000_0000_0000) as u64
}

/// The number of identifiers at resolution `target` that the engine counts
/// under one cell at `resolution`: 4 per level from resolution 2 on, and the
/// ratio of the levels' cell counts above that.
pub open spec fn cell_expansion(resolution: int, target: int) -> int {
    if target < resolution {
        0
    } else if target == resolution {
        1
    } else if resolution >= 2 {
        pow4((target - resolution) as nat)
    } else {
        let parent_count = num_cells_at(resolution);
        num_cells_at(target) / (if parent_count == 0 {
            1
        } else {
            parent_count
        })
    }
}

/// The number of identifiers the engine counts for expanding `cells` to `target`.
pub open spec fn expansion_total(cells: Seq<u64>, target: int) -> int
    decreases cells.len(),
{
    if cells.len() == 0 {
        0
    } else {
        expansion_total(cells.drop_last(), target) + cell_expansion(
            grid_resolution(cells.last()),
            target,
        )
    }
}

/// The largest number of identifiers a vector can be allocated for.
pub open spec fn max_expansion() -> int {
    (isize::MAX as int) / 8
}

/// The resolution that the engine reads from an identifier's marker bit.
pub uninterp spec fn grid_resolution(id: u64) -> int;

/// The top six bits of an identifier: the origin, or origin and segment.
pub open spec fn top_bits(id: u64) -> int {
    id as int / 0x0400_0000_0000_0000
}

/// The engine can take an identifier apart: the world cell, a base cell of one
/// of the 12 origins, or a finer cell whose top bits name an origin (5 segments
/// each).
pub open spec fn cell_decodes(id: u64) -> bool {
    let r = grid_resolution(id);
    r == -1 || (r == 0 && top_bits(id) < 12) || (r >= 1 && top_bits(id) < 60)
}

/// The levels the engine descends from `resolution` to `target` when listing
/// children: resolutions 0 and 1 share one count.
pub open spec fn descent(resolution: int, target: int) -> int {
    target - (if resolution > 1 {
        resolution
    } else {
        1
    })
}

/// The ancestor that the engine derives for an identifier at a target resolution.
pub uninterp spec fn grid_parent(id: u64, target: int) -> u64;

/// The descendants that the engine lists for an identifier at a target resolution.
pub uninterp spec fn grid_children(id: u64, target: int) -> Seq<u64>;

/// The covering that the engine's compaction computes for a list of identifiers.
pub uninterp spec fn grid_compact(cells: Seq<u64>) -> Seq<u64>;

/// The expansion that the engine computes for a list of identifiers at a target resolution.
pub uninterp spec fn grid_uncompact(cells: Seq<u64>, target: int) -> Seq<u64>;

/// Relies on `a5::get_resolution`: it scans the marker bits from resolution 29
/// downwards and stops at -1, so its result lies in that range.
#[verifier::external_body]
pub(crate) fn engine_resolution(id: u64) -> (r: i32)
    ensures
        r as int == grid_resolution(id),
        -1 <= r <= 29,
{
    a5::get_resolution(id)
}

/// Relies on `a5::cell_to_parent` with an explicit target. It fails exactly
/// where the identifier does not deserialize (`deserialize` checks the origin
/// in the top bits) or the target is finer than the cell's own resolution (as
/// `get_resolution` reads it); at the cell's own resolution it hands the
/// identifier back; otherwise it serializes the ancestor, whose shifted Hilbert
/// index fits, and whose marker bit `serialize` places where `get_resolution`
/// reads the target back.
#[verifier::external_body]
pub(crate) fn engine_parent(id: u64, target: i32) -> (r: Result<u64, String>)
    requires
        0 <= target,
    ensures
        r is Ok ==> r->Ok_0 == grid_parent(id, target as int),
        r is Ok ==> target <= grid_resolution(id),
        !cell_decodes(id) ==> r is Err,
        (cell_decodes(id) && target <= grid_resolution(id)) ==> r is Ok,
        r is Ok ==> grid_resolution(r->Ok_0) == target,
        (r is Ok && target == grid_resolution(id)) ==> r->Ok_0 == id,
{
    a5::cell_to_parent(id, Some(target))
}

/// Relies on `a5::cell_to_children` with an explicit target. It fails where the
/// identifier does not deserialize, the target is coarser than the cell, or
/// it descends more than 20 levels; every child it builds serializes (a valid
/// origin and segment, and a Hilbert index below the target's bound). At
/// the cell's own resolution it returns the identifier alone; otherwise every
/// child is serialized at the target, and from resolution 1 on each finer level
/// splits a cell in 4. The target 30 is left out: `serialize` overflows its
/// marker shift there. (Its child count, at most 4^20, is a `usize`: a 64-bit
/// target is assumed.)
#[verifier::external_body]
pub(crate) fn engine_children(id: u64, target: i32) -> (r: Result<Vec<u64>, String>)
    requires
        target < 30,
    ensures
        r is Ok ==> r->Ok_0@ == grid_children(id, target as int),
        r is Ok ==> grid_resolution(id) <= target,
        !cell_decodes(id) ==> r is Err,
        (cell_decodes(id) && grid_resolution(id) <= target && descent(
            grid_resolution(id),
            target as int,
        ) <= 20) ==> r is Ok,
        (r is Ok && target == grid_resolution(id)) ==> r->Ok_0@ == seq![id],
        (r is Ok && grid_resolution(id) >= 1) ==> r->Ok_0@.len() == pow4(
            (target - grid_resolution(id)) as nat,
        ),
        r is Ok ==> forall|i: int|
            0 <= i < r->Ok_0@.len() ==> grid_resolution(#[trigger] r->Ok_0@[i]) == target,
{
    a5::cell_to_children(id, Some(target))
}

/// Relies on `a5::get_res0_cells`: the children of the world cell at
/// resolution 0, serialized (always successfully) for origins 0 to 11 with
/// segment 0, each with the resolution-0 marker bit.
#[verifier::external_body]
pub(crate) fn engine_res0_cells() -> (r: Result<Vec<u64>, String>)
    ensures
        r is Ok,
        r is Ok ==> r->Ok_0@ == Seq::new(12, |k: int| base_cell(k)),
        r is Ok ==> forall|i: int|
            0 <= i < r->Ok_0@.len() ==> grid_resolution(#[trigger] r->Ok_0@[i]) == 0,
{
    a5::get_res0_cells()
}

/// Relies on `a5::get_num_cells`; above resolution 30 its power overflows, so
/// that is left out.
#[verifier::external_body]
pub(crate) fn engine_num_cells(resolution: i32) -> (r: u64)
    requires
        resolution <= 30,
    ensures
        r as int == num_cells_at(resolution as int),
{
    a5::get_num_cells(resolution)
}

/// Relies on `a5::compact`: an empty list compacts to an empty list, and its one
/// failure, `cell_to_parent` on the first cell of a complete sibling group, does
/// not come where every cell deserializes (the parents it adds deserialize
/// too). Identifiers above the signed maximum are left out: for some of them
/// the stride walk over the base cells overflows.
#[verifier::external_body]
pub(crate) fn engine_compact(cells: &Vec<u64>) -> (r: Result<Vec<u64>, String>)
    requires
        forall|i: int| 0 <= i < cells@.len() ==> #[trigger] cells@[i] <= i64::MAX,
    ensures
        r is Ok ==> r->Ok_0@ == grid_compact(cells@),
        cells@.len() == 0 ==> (r is Ok && r->Ok_0@.len() == 0),
        (forall|i: int| 0 <= i < cells@.len() ==> cell_decodes(#[trigger] cells@[i])) ==> r is Ok,
{
    a5::compact(cells)
}

/// Relies on `a5::uncompact`. It fails where a cell is finer than the target
/// or its children cannot be listed; every identifier it returns is either a
/// cell already at the target or one of the children listed at the target. It
/// first sums the expected count of every cell (`get_num_children`) and
/// allocates that many, so a sum beyond what can be allocated is left out, as
/// is the target 30, at which listing children overflows, and a target below
/// -1 with any cell, at which the resolution difference can overflow. Where
/// every cell deserializes, is no finer than the target and descends at most
/// 20 levels, every listing succeeds.
#[verifier::external_body]
pub(crate) fn engine_uncompact(cells: &Vec<u64>, target: i32) -> (r: Result<Vec<u64>, String>)
    requires
        target < 30,
        cells@.len() == 0 || target >= -1,
        expansion_total(cells@, target as int) <= max_expansion(),
    ensures
        r is Ok ==> r->Ok_0@ == grid_uncompact(cells@, target as int),
        (forall|i: int|
            0 <= i < cells@.len() ==> cell_decodes(#[trigger] cells@[i]) && grid_resolution(
                cells@[i],
            ) <= target && descent(grid_resolution(cells@[i]), target as int) <= 20) ==> r is Ok,
        r is Ok ==> forall|i: int|
            0 <= i < cells@.len() ==> grid_resolution(#[trigger] cells@[i]) <= target,
        r is Ok ==> forall|i: int|
            0 <= i < r->Ok_0@.len() ==> grid_resolution(#[trigger] r->Ok_0@[i]) == target,
{
    a5::uncompact(cells, target)
}

} // verus!
