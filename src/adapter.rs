//! Conversion between the engine's unsigned identifiers and host integers.
use vstd::prelude::*;

use crate::error::GridError;

verus! {

/// The largest identifier the host can store.
pub open spec fn host_representable(id: u64) -> bool {
    id <= i64::MAX
}

/// The unsigned value whose bit pattern equals that of the signed value `v`
/// (two's complement: a negative value stands for itself plus 2^64).
pub open spec fn engine_value(v: i64) -> int {
    if v >= 0 {
        v as int
    } else {
        v + 0x1_0000_0000_0000_0000int
    }
}

/// Hands an engine identifier to the host, refusing it where it would wrap.
pub fn to_host(id: u64) -> (r: Result<i64, GridError>)
    ensures
        host_representable(id) ==> (r matches Ok(v) && v as int == id as int),
        !host_representable(id) ==> (r matches Err(GridError::Overflow { value }) && value == id),
{
    if id <= i64::MAX as u64 {
        Ok(id as i64)
    } else {
        Err(GridError::Overflow { value: id })
    }
}

/// An identifier the host can store comes back unchanged from the host.
pub proof fn lemma_host_round_trip(id: u64)
    requires
        host_representable(id),
    ensures
        engine_value(id as i64) == id as int,
{
}

/// Hands an identifier the engine produced for a coordinate to the host: an
/// engine rejection becomes an encode error, an identifier the host cannot
/// store an overflow error.
pub fn encoded_cell_to_host(engine: Result<u64, String>) -> (r: Result<i64, GridError>)
    ensures
        engine matches Err(m) ==> (r matches Err(GridError::Encode { message }) && message == m),
        engine matches Ok(id) ==> (host_representable(id) ==> (r matches Ok(v) && v as int
            == id as int)),
        engine matches Ok(id) ==> (!host_representable(id) ==> (r matches Err(
            GridError::Overflow { value },
        ) && value == id)),
{
    match engine {
        Ok(id) => to_host(id),
        Err(message) => Err(GridError::Encode { message }),
    }
}

/// Reinterprets a host integer as an engine identifier; never fails.
pub fn to_engine(v: i64) -> (r: u64)
    ensures
        r as int == engine_value(v),
{
    if v >= 0 {
        v as u64
    } else {
        // v + 2^64, computed as (v + 2^63) + 2^63 so that no step leaves its type
        ((v + i64::MAX + 1) as u64) + 0x8000_0000_0000_0000u64
    }
}

/// The engine identifier that a host value stands for.
pub open spec fn engine_id(cell_id: i64) -> u64 {
    engine_value(cell_id) as u64
}

/// The engine identifiers that a list of host values stands for.
pub open spec fn engine_ids(ids: Seq<i64>) -> Seq<u64> {
    ids.map_values(|v: i64| engine_id(v))
}

/// The engine identifiers of a list of host values.
pub fn ids_to_engine(ids: &Vec<i64>) -> (r: Vec<u64>)
    ensures
        r@ == engine_ids(ids@),
{
    let mut r: Vec<u64> = Vec::new();
    let mut i: usize = 0;
    while i < ids.len()
        invariant
            i <= ids@.len(),
            r@.len() == i,
            forall|j: int| 0 <= j < i ==> r@[j] as int == engine_value(#[trigger] ids@[j]),
        decreases ids@.len() - i,
    {
        r.push(to_engine(ids[i]));
        i += 1;
    }
    assert(r@ =~= engine_ids(ids@));
    r
}

/// Every identifier of `ids` can be stored by the host.
pub open spec fn all_representable(ids: Seq<u64>) -> bool {
    forall|i: int| 0 <= i < ids.len() ==> host_representable(#[trigger] ids[i])
}

/// `v` holds the same identifiers as `ids`, in the same order.
pub open spec fn same_ids(v: Seq<i64>, ids: Seq<u64>) -> bool {
    &&& v.len() == ids.len()
    &&& forall|i: int| 0 <= i < ids.len() ==> #[trigger] v[i] as int == ids[i] as int
}

/// `value` is the first identifier of `ids` that the host cannot store.
pub open spec fn first_unrepresentable(ids: Seq<u64>, value: u64) -> bool {
    exists|i: int|
        0 <= i < ids.len() && #[trigger] ids[i] == value && !host_representable(value)
            && all_representable(ids.take(i))
}

/// Hands a list of engine identifiers to the host, refusing the first one that would wrap.
pub fn ids_to_host(ids: &Vec<u64>) -> (r: Result<Vec<i64>, GridError>)
    ensures
        all_representable(ids@) ==> (r matches Ok(v) && same_ids(v@, ids@)),
        !all_representable(ids@) ==> (r matches Err(GridError::Overflow { value })
            && first_unrepresentable(ids@, value)),
{
    let mut v: Vec<i64> = Vec::new();
    let mut i: usize = 0;
    while i < ids.len()
        invariant
            i <= ids@.len(),
            same_ids(v@, ids@.take(i as int)),
            all_representable(ids@.take(i as int)),
        decreases ids@.len() - i,
    {
        match to_host(ids[i]) {
            Ok(h) => {
                v.push(h);
            },
            Err(e) => {
                assert(ids@.take(i as int).len() == i);
                return Err(e);
            },
        }
        i += 1;
        assert(ids@.take(i as int).drop_last() == ids@.take(i - 1));
    }
    assert(ids@.take(i as int) == ids@);
    Ok(v)
}

/// Hands an identifier the engine derived from another one to the host: an
/// engine rejection becomes a decode error.
pub fn decoded_cell_to_host(engine: Result<u64, String>) -> (r: Result<i64, GridError>)
    ensures
        engine matches Err(m) ==> (r matches Err(GridError::Decode { message }) && message == m),
        engine matches Ok(id) ==> (host_representable(id) ==> (r matches Ok(v) && v as int
            == id as int)),
        engine matches Ok(id) ==> (!host_representable(id) ==> (r matches Err(
            GridError::Overflow { value },
        ) && value == id)),
{
    match engine {
        Ok(id) => to_host(id),
        Err(message) => Err(GridError::Decode { message }),
    }
}

/// Hands a list of identifiers the engine derived to the host: an engine
/// rejection becomes a decode error.
pub fn decoded_cells_to_host(engine: Result<Vec<u64>, String>) -> (r: Result<Vec<i64>, GridError>)
    ensures
        engine matches Err(m) ==> (r matches Err(GridError::Decode { message }) && message == m),
        engine matches Ok(ids) ==> (all_representable(ids@) ==> (r matches Ok(v) && same_ids(
            v@,
            ids@,
        ))),
        engine matches Ok(ids) ==> (!all_representable(ids@) ==> (r matches Err(
            GridError::Overflow { value },
        ) && first_unrepresentable(ids@, value))),
{
    match engine {
        Ok(ids) => ids_to_host(&ids),
        Err(message) => Err(GridError::Decode { message }),
    }
}

/// Hands the list of identifiers a compaction produced to the host: an engine
/// rejection becomes an encode error.
pub fn encoded_cells_to_host(engine: Result<Vec<u64>, String>) -> (r: Result<Vec<i64>, GridError>)
    ensures
        engine matches Err(m) ==> (r matches Err(GridError::Encode { message }) && message == m),
        engine matches Ok(ids) ==> (all_representable(ids@) ==> (r matches Ok(v) && same_ids(
            v@,
            ids@,
        ))),
        engine matches Ok(ids) ==> (!all_representable(ids@) ==> (r matches Err(
            GridError::Overflow { value },
        ) && first_unrepresentable(ids@, value))),
{
    match engine {
        Ok(ids) => ids_to_host(&ids),
        Err(message) => Err(GridError::Encode { message }),
    }
}

} // verus!
