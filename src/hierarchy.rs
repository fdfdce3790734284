//! Resolution, parent, children, compaction and enumeration of cells, with
//! every identifier passing through the adapter on its way in and out.
use vstd::prelude::*;

use crate::adapter::{
    all_representable, decoded_cell_to_host, decoded_cells_to_host, encoded_cells_to_host,
    engine_id, engine_ids, first_unrepresentable, host_representable, ids_to_engine, ids_to_host,
    same_ids, to_engine, to_host,
};
use crate::engine::{
    base_cell, cell_decodes, cell_expansion, descent, engine_children, engine_compact,
    engine_num_cells, engine_parent, engine_res0_cells, engine_resolution, engine_uncompact,
    expansion_total, grid_children, grid_compact, grid_parent, grid_resolution, grid_uncompact,
    max_expansion, num_cells_at, pow4,
};
use crate::error::GridError;

verus! {

/// The finest resolution whose cells the engine can list.
pub const MAX_LISTED_RESOLUTION: i32 = 29;

/// The finest resolution the engine counts cells at.
pub const MAX_RESOLUTION: i32 = 30;

/// The largest number of resolution levels the engine descends in one listing.
pub const MAX_DESCENT: i32 = 20;

/// The resolution of a host identifier.
pub open spec fn resolution_of(cell_id: i64) -> int {
    grid_resolution(engine_id(cell_id))
}

/// The engine can take the identifier a host value stands for apart.
pub open spec fn decodes(cell_id: i64) -> bool {
    cell_decodes(engine_id(cell_id))
}

/// The engine can take every identifier of a list apart.
pub open spec fn all_decode(ids: Seq<u64>) -> bool {
    forall|i: int| 0 <= i < ids.len() ==> cell_decodes(#[trigger] ids[i])
}

/// Every identifier of a list is at or above `target` and within the engine's
/// descent from it.
pub open spec fn all_expandable(ids: Seq<u64>, target: int) -> bool {
    forall|i: int|
        0 <= i < ids.len() ==> grid_resolution(#[trigger] ids[i]) <= target && descent(
            grid_resolution(ids[i]),
            target,
        ) <= MAX_DESCENT
}

/// The resolution of a cell, read from its identifier.
pub fn a5_get_resolution(cell_id: i64) -> (r: i32)
    ensures
        r as int == resolution_of(cell_id),
        -1 <= r <= 29,
{
    engine_resolution(to_engine(cell_id))
}

/// The ancestor of a cell at a coarser (or equal) resolution.
pub fn a5_cell_to_parent(cell_id: i64, target_resolution: i32) -> (r: Result<i64, GridError>)
    ensures
        (target_resolution < 0 || target_resolution > resolution_of(cell_id)) ==> (r matches Err(
            GridError::HierarchyRange { resolution, target },
        ) && resolution == resolution_of(cell_id) && target == target_resolution),
        (0 <= target_resolution <= resolution_of(cell_id) && !decodes(cell_id)) ==> r matches Err(
            GridError::Decode { .. },
        ),
        (0 <= target_resolution <= resolution_of(cell_id) && decodes(cell_id)
            && host_representable(grid_parent(engine_id(cell_id), target_resolution as int)))
            ==> (r matches Ok(p) && p as int == grid_parent(
            engine_id(cell_id),
            target_resolution as int,
        ) as int),
        (0 <= target_resolution <= resolution_of(cell_id) && decodes(cell_id)
            && !host_representable(grid_parent(engine_id(cell_id), target_resolution as int)))
            ==> (r matches Err(GridError::Overflow { value }) && value == grid_parent(
            engine_id(cell_id),
            target_resolution as int,
        )),
        r matches Ok(p) ==> resolution_of(p) == target_resolution,
        (0 <= target_resolution == resolution_of(cell_id) && decodes(cell_id) && cell_id >= 0)
            ==> (r matches Ok(p) && p == cell_id),
{
    let id = to_engine(cell_id);
    let resolution = engine_resolution(id);
    if target_resolution < 0 || target_resolution > resolution {
        return Err(GridError::HierarchyRange { resolution, target: target_resolution });
    }
    decoded_cell_to_host(engine_parent(id, target_resolution))
}

/// The descendants of a cell at a finer (or equal) resolution.
pub fn a5_cell_to_children(cell_id: i64, target_resolution: i32) -> (r: Result<
    Vec<i64>,
    GridError,
>)
    ensures
        target_resolution < resolution_of(cell_id) ==> (r matches Err(
            GridError::HierarchyRange { resolution, target },
        ) && resolution == resolution_of(cell_id) && target == target_resolution),
        (resolution_of(cell_id) <= target_resolution && target_resolution
            > MAX_LISTED_RESOLUTION) ==> (r matches Err(GridError::ResolutionLimit { resolution })
            && resolution == target_resolution),
        (resolution_of(cell_id) <= target_resolution <= MAX_LISTED_RESOLUTION && descent(
            resolution_of(cell_id),
            target_resolution as int,
        ) > MAX_DESCENT) ==> (r matches Err(GridError::ExpansionTooLarge { resolution, target })
            && resolution == resolution_of(cell_id) && target == target_resolution),
        (resolution_of(cell_id) <= target_resolution <= MAX_LISTED_RESOLUTION && descent(
            resolution_of(cell_id),
            target_resolution as int,
        ) <= MAX_DESCENT && !decodes(cell_id)) ==> r matches Err(GridError::Decode { .. }),
        (resolution_of(cell_id) <= target_resolution <= MAX_LISTED_RESOLUTION && descent(
            resolution_of(cell_id),
            target_resolution as int,
        ) <= MAX_DESCENT && decodes(cell_id) && all_representable(
            grid_children(engine_id(cell_id), target_resolution as int),
        )) ==> (r matches Ok(v) && same_ids(
            v@,
            grid_children(engine_id(cell_id), target_resolution as int),
        )),
        (resolution_of(cell_id) <= target_resolution <= MAX_LISTED_RESOLUTION && descent(
            resolution_of(cell_id),
            target_resolution as int,
        ) <= MAX_DESCENT && decodes(cell_id) && !all_representable(
            grid_children(engine_id(cell_id), target_resolution as int),
        )) ==> (r matches Err(GridError::Overflow { value }) && first_unrepresentable(
            grid_children(engine_id(cell_id), target_resolution as int),
            value,
        )),
        r matches Ok(v) ==> same_ids(
            v@,
            grid_children(engine_id(cell_id), target_resolution as int),
        ),
        r matches Ok(v) ==> forall|i: int|
            0 <= i < v@.len() ==> resolution_of(#[trigger] v@[i]) == target_resolution,
        r matches Ok(v) ==> (resolution_of(cell_id) >= 1 ==> v@.len() == pow4(
            (target_resolution - resolution_of(cell_id)) as nat,
        )),
        (target_resolution == resolution_of(cell_id) && decodes(cell_id) && cell_id >= 0) ==> (r
            matches Ok(v) && v@ == seq![cell_id]),
{
    let id = to_engine(cell_id);
    let resolution = engine_resolution(id);
    if target_resolution < resolution {
        return Err(GridError::HierarchyRange { resolution, target: target_resolution });
    }
    if target_resolution > MAX_LISTED_RESOLUTION {
        return Err(GridError::ResolutionLimit { resolution: target_resolution });
    }
    let coarsest: i32 = if resolution > 1 {
        resolution
    } else {
        1
    };
    if target_resolution - coarsest > MAX_DESCENT {
        return Err(GridError::ExpansionTooLarge { resolution, target: target_resolution });
    }
    let children = engine_children(id, target_resolution);
    let r = decoded_cells_to_host(children);
    proof {
        if r is Ok {
            let v = r->Ok_0;
            assert forall|i: int| 0 <= i < v@.len() implies resolution_of(#[trigger] v@[i])
                == target_resolution by {
                assert(engine_id(v@[i]) == children->Ok_0@[i]);
            }
            if target_resolution == resolution {
                assert(v@ =~= seq![cell_id]);
            }
        }
        if target_resolution == resolution && cell_decodes(id) && cell_id >= 0 {
            assert(all_representable(children->Ok_0@));
        }
    }
    r
}

/// The number of cells the grid has at a resolution, as a host integer.
pub fn a5_get_num_cells(resolution: i32) -> (r: Result<i64, GridError>)
    ensures
        resolution > MAX_RESOLUTION ==> (r matches Err(GridError::ResolutionLimit { resolution: res })
            && res == resolution),
        resolution <= MAX_RESOLUTION ==> (r matches Ok(n) && n as int == num_cells_at(resolution as int))
            || (r matches Err(GridError::Overflow { value }) && value as int == num_cells_at(
            resolution as int,
        ) && value > i64::MAX),
{
    if resolution > MAX_RESOLUTION {
        return Err(GridError::ResolutionLimit { resolution });
    }
    to_host(engine_num_cells(resolution))
}

/// The twelve base cells of the grid: distinct, each at resolution 0.
pub fn a5_get_res0_cells() -> (r: Result<Vec<i64>, GridError>)
    ensures
        r matches Ok(v) && same_ids(v@, Seq::new(12, |k: int| base_cell(k))),
        r matches Ok(v) && v@.len() == 12,
        r matches Ok(v) && forall|i: int| 0 <= i < v@.len() ==> resolution_of(#[trigger] v@[i]) == 0,
        r matches Ok(v) && forall|i: int, j: int|
            0 <= i < v@.len() && 0 <= j < v@.len() && i != j ==> #[trigger] v@[i] != #[trigger] v@[j],
{
    let cells = engine_res0_cells();
    proof {
        let cells = cells->Ok_0;
        assert forall|i: int| 0 <= i < cells@.len() implies host_representable(
            #[trigger] cells@[i],
        ) by {
            assert(i * 0x0400_0000_0000_0000 + 0x0200_0000_0000_0000 <= i64::MAX)
                by (nonlinear_arith)
                requires
                    0 <= i < 12,
            ;
        }
    }
    let r = decoded_cells_to_host(cells);
    proof {
        let base = cells->Ok_0@;
        let v = r->Ok_0@;
        assert forall|i: int| 0 <= i < v.len() implies resolution_of(#[trigger] v[i]) == 0 by {
            assert(engine_id(v[i]) == base[i]);
        }
        assert forall|i: int, j: int|
            0 <= i < v.len() && 0 <= j < v.len() && i != j implies #[trigger] v[i]
            != #[trigger] v[j] by {
            assert(i * 0x0400_0000_0000_0000 + 0x0200_0000_0000_0000 != j * 0x0400_0000_0000_0000
                + 0x0200_0000_0000_0000) by (nonlinear_arith)
                requires
                    i != j,
            ;
            assert(i * 0x0400_0000_0000_0000 + 0x0200_0000_0000_0000 <= i64::MAX)
                by (nonlinear_arith)
                requires
                    0 <= i < 12,
            ;
            assert(j * 0x0400_0000_0000_0000 + 0x0200_0000_0000_0000 <= i64::MAX)
                by (nonlinear_arith)
                requires
                    0 <= j < 12,
            ;
        }
    }
    r
}

/// Replaces every complete group of siblings by its parent, repeatedly.
pub fn a5_compact(cell_ids: &Vec<i64>) -> (r: Result<Vec<i64>, GridError>)
    ensures
        !all_representable(engine_ids(cell_ids@)) ==> (r matches Err(
            GridError::Overflow { value },
        ) && first_unrepresentable(engine_ids(cell_ids@), value)),
        all_representable(engine_ids(cell_ids@)) ==> (r is Ok || r matches Err(
            GridError::Encode { .. },
        ) || (r matches Err(GridError::Overflow { value }) && first_unrepresentable(
            grid_compact(engine_ids(cell_ids@)),
            value,
        ))),
        r matches Err(GridError::Encode { .. }) ==> !all_decode(engine_ids(cell_ids@)),
        (all_representable(engine_ids(cell_ids@)) && all_decode(engine_ids(cell_ids@))
            && all_representable(grid_compact(engine_ids(cell_ids@)))) ==> (r matches Ok(v)
            && same_ids(v@, grid_compact(engine_ids(cell_ids@)))),
        (all_representable(engine_ids(cell_ids@)) && all_decode(engine_ids(cell_ids@))
            && !all_representable(grid_compact(engine_ids(cell_ids@)))) ==> (r matches Err(
            GridError::Overflow { value },
        ) && first_unrepresentable(grid_compact(engine_ids(cell_ids@)), value)),
        r matches Ok(v) ==> same_ids(v@, grid_compact(engine_ids(cell_ids@))),
        cell_ids@.len() == 0 ==> (r matches Ok(v) && v@.len() == 0),
{
    let ids = ids_to_engine(cell_ids);
    // an identifier the host cannot store is never handed to the engine
    if let Err(e) = ids_to_host(&ids) {
        return Err(e);
    }
    encoded_cells_to_host(engine_compact(&ids))
}

/// Powers of 4 are positive and grow with the exponent.
proof fn lemma_pow4_monotone(a: nat, b: nat)
    requires
        a <= b,
    ensures
        1 <= pow4(a) <= pow4(b),
    decreases b,
{
    if a < b {
        lemma_pow4_monotone(a, (b - 1) as nat);
    } else if a > 0 {
        lemma_pow4_monotone((a - 1) as nat, (a - 1) as nat);
    }
}

/// Up to the grid's 30 levels, a power of 4 fits in 61 bits.
proof fn lemma_pow4_bound(n: nat)
    requires
        n <= 30,
    ensures
        1 <= pow4(n) <= 0x1000_0000_0000_0000,
{
    lemma_pow4_monotone(n, 30);
    assert(pow4(30) == 0x1000_0000_0000_0000) by {
        reveal_with_fuel(pow4, 31);
    }
}

/// The number of identifiers the engine counts under one cell at `resolution`
/// when expanding to `target`.
fn expansion_count(resolution: i32, target: i32) -> (r: u64)
    requires
        -1 <= resolution <= 29,
        target <= 29,
    ensures
        r as int == cell_expansion(resolution as int, target as int),
        r <= 0x4000_0000_0000_0000,
{
    if target < resolution {
        0
    } else if target == resolution {
        1
    } else if resolution >= 2 {
        let levels = target - resolution;
        let mut count: u64 = 1;
        let mut i: i32 = 0;
        while i < levels
            invariant
                0 <= i <= levels <= 27,
                count as int == pow4(i as nat),
            decreases levels - i,
        {
            proof {
                lemma_pow4_bound((i + 1) as nat);
            }
            count = count * 4;
            i += 1;
        }
        proof {
            lemma_pow4_bound(levels as nat);
        }
        count
    } else {
        let parent_count = engine_num_cells(resolution);
        let child_count = engine_num_cells(target);
        proof {
            assert(pow4(26) == 0x10_0000_0000_0000) by {
                reveal_with_fuel(pow4, 27);
            }
            if 1 <= target <= 27 {
                lemma_pow4_monotone((target - 1) as nat, 26);
            }
            if parent_count > 0 {
                assert(child_count / parent_count <= child_count) by (nonlinear_arith)
                    requires
                        parent_count > 0,
                ;
            }
        }
        if parent_count == 0 {
            child_count
        } else {
            child_count / parent_count
        }
    }
}

/// Expands every cell to its descendants at a target resolution; cells
/// already there pass through.
pub fn a5_uncompact(cell_ids: &Vec<i64>, target_resolution: i32) -> (r: Result<
    Vec<i64>,
    GridError,
>)
    ensures
        target_resolution > MAX_LISTED_RESOLUTION ==> (r matches Err(
            GridError::ResolutionLimit { resolution },
        ) && resolution == target_resolution),
        (target_resolution <= MAX_LISTED_RESOLUTION && exists|i: int|
            0 <= i < cell_ids@.len() && resolution_of(#[trigger] cell_ids@[i])
                > target_resolution) ==> (r matches Err(
            GridError::HierarchyRange { resolution, target },
        ) && target == target_resolution && resolution > target_resolution && exists|i: int|
            0 <= i < cell_ids@.len() && resolution_of(#[trigger] cell_ids@[i]) == resolution),
        (target_resolution <= MAX_LISTED_RESOLUTION && (forall|i: int|
            0 <= i < cell_ids@.len() ==> resolution_of(#[trigger] cell_ids@[i])
                <= target_resolution) && !(all_expandable(
            engine_ids(cell_ids@),
            target_resolution as int,
        ) && expansion_total(engine_ids(cell_ids@), target_resolution as int)
            <= max_expansion())) ==> r matches Err(GridError::ExpansionTooLarge { .. }),
        r matches Err(GridError::ExpansionTooLarge { .. }) ==> !(all_expandable(
            engine_ids(cell_ids@),
            target_resolution as int,
        ) && expansion_total(engine_ids(cell_ids@), target_resolution as int)
            <= max_expansion()),
        r matches Err(GridError::Decode { .. }) ==> !all_decode(engine_ids(cell_ids@)),
        (target_resolution <= MAX_LISTED_RESOLUTION && all_expandable(
            engine_ids(cell_ids@),
            target_resolution as int,
        ) && expansion_total(engine_ids(cell_ids@), target_resolution as int) <= max_expansion())
            ==> (r is Ok || r matches Err(GridError::Decode { .. }) || (r matches Err(
            GridError::Overflow { value },
        ) && first_unrepresentable(
            grid_uncompact(engine_ids(cell_ids@), target_resolution as int),
            value,
        ))),
        (target_resolution <= MAX_LISTED_RESOLUTION && all_expandable(
            engine_ids(cell_ids@),
            target_resolution as int,
        ) && expansion_total(engine_ids(cell_ids@), target_resolution as int) <= max_expansion()
            && all_decode(engine_ids(cell_ids@)) && all_representable(
            grid_uncompact(engine_ids(cell_ids@), target_resolution as int),
        )) ==> (r matches Ok(v) && same_ids(
            v@,
            grid_uncompact(engine_ids(cell_ids@), target_resolution as int),
        )),
        (target_resolution <= MAX_LISTED_RESOLUTION && all_expandable(
            engine_ids(cell_ids@),
            target_resolution as int,
        ) && expansion_total(engine_ids(cell_ids@), target_resolution as int) <= max_expansion()
            && all_decode(engine_ids(cell_ids@)) && !all_representable(
            grid_uncompact(engine_ids(cell_ids@), target_resolution as int),
        )) ==> (r matches Err(GridError::Overflow { value }) && first_unrepresentable(
            grid_uncompact(engine_ids(cell_ids@), target_resolution as int),
            value,
        )),
        r matches Ok(v) ==> same_ids(
            v@,
            grid_uncompact(engine_ids(cell_ids@), target_resolution as int),
        ),
        r matches Ok(v) ==> forall|i: int|
            0 <= i < v@.len() ==> resolution_of(#[trigger] v@[i]) == target_resolution,
{
    if target_resolution > MAX_LISTED_RESOLUTION {
        return Err(GridError::ResolutionLimit { resolution: target_resolution });
    }
    let ids = ids_to_engine(cell_ids);
    proof {
        assert forall|j: int| 0 <= j < cell_ids@.len() implies #[trigger] ids@[j] == engine_id(
            cell_ids@[j],
        ) by {}
    }
    // every resolution is checked before any count, so that a cell finer than
    // the target is always reported as such
    let mut i: usize = 0;
    while i < ids.len()
        invariant
            ids@ == engine_ids(cell_ids@),
            i <= ids@.len(),
            forall|j: int|
                0 <= j < i ==> -1 <= grid_resolution(#[trigger] ids@[j]) <= target_resolution,
        decreases ids@.len() - i,
    {
        let resolution = engine_resolution(ids[i]);
        if resolution > target_resolution {
            assert(resolution_of(cell_ids@[i as int]) == resolution);
            return Err(GridError::HierarchyRange { resolution, target: target_resolution });
        }
        i += 1;
    }
    assert forall|j: int| 0 <= j < cell_ids@.len() implies resolution_of(#[trigger] cell_ids@[j])
        <= target_resolution by {
        assert(ids@[j] == engine_id(cell_ids@[j]));
    }
    let mut total: u64 = 0;
    let mut i: usize = 0;
    while i < ids.len()
        invariant
            ids@ == engine_ids(cell_ids@),
            target_resolution <= MAX_LISTED_RESOLUTION,
            i <= ids@.len(),
            forall|j: int|
                0 <= j < ids@.len() ==> -1 <= grid_resolution(#[trigger] ids@[j])
                    <= target_resolution,
            forall|j: int|
                0 <= j < cell_ids@.len() ==> resolution_of(#[trigger] cell_ids@[j])
                    <= target_resolution,
            total as int == expansion_total(ids@.take(i as int), target_resolution as int),
            total <= max_expansion(),
            forall|j: int|
                0 <= j < i ==> descent(
                    grid_resolution(#[trigger] ids@[j]),
                    target_resolution as int,
                ) <= MAX_DESCENT,
        decreases ids@.len() - i,
    {
        let resolution = engine_resolution(ids[i]);
        let coarsest: i32 = if resolution > 1 {
            resolution
        } else {
            1
        };
        if target_resolution - coarsest > MAX_DESCENT {
            return Err(GridError::ExpansionTooLarge { resolution, target: target_resolution });
        }
        let count = expansion_count(resolution, target_resolution);
        assert(ids@.take(i + 1).drop_last() == ids@.take(i as int));
        if count > (isize::MAX as u64) / 8 - total {
            proof {
                lemma_expansion_total_prefix(ids@, (i + 1) as nat, target_resolution as int);
            }
            return Err(GridError::ExpansionTooLarge { resolution, target: target_resolution });
        }
        total = total + count;
        i += 1;
    }
    assert(ids@.take(i as int) == ids@);
    assert(ids@.len() == 0 || target_resolution >= -1);
    let expanded = engine_uncompact(&ids, target_resolution);
    let r = decoded_cells_to_host(expanded);
    proof {
        if r is Ok {
            let v = r->Ok_0;
            assert forall|k: int| 0 <= k < v@.len() implies resolution_of(#[trigger] v@[k])
                == target_resolution by {
                assert(engine_id(v@[k]) == expanded->Ok_0@[k]);
            }
        }
    }
    r
}

/// The expected count of a list is at least that of any prefix of it.
proof fn lemma_expansion_total_prefix(cells: Seq<u64>, n: nat, target: int)
    requires
        n <= cells.len(),
        target <= 29,
    ensures
        expansion_total(cells.take(n as int), target) <= expansion_total(cells, target),
    decreases cells.len(),
{
    if n < cells.len() {
        assert(cells.drop_last().take(n as int) == cells.take(n as int));
        lemma_expansion_total_prefix(cells.drop_last(), n, target);
        lemma_cell_expansion_nonnegative(grid_resolution(cells.last()), target);
    } else {
        assert(cells.take(n as int) == cells);
    }
}

/// No cell expands to a negative count.
proof fn lemma_cell_expansion_nonnegative(resolution: int, target: int)
    ensures
        cell_expansion(resolution, target) >= 0,
{
    if target > resolution && resolution >= 2 {
        lemma_pow4_monotone(0, (target - resolution) as nat);
    }
    if target >= 1 {
        lemma_pow4_monotone(0, (target - 1) as nat);
    }
}

} // verus!
