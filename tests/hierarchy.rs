use std::collections::BTreeSet;

use a5::LonLat;
use a5pg::adapter::encoded_cell_to_host;
use a5pg::boundary::{boundary_flat, boundary_options_default, center_pair};
use a5pg::error::GridError;
use a5pg::hierarchy::{
    a5_cell_to_children, a5_cell_to_parent, a5_compact, a5_get_num_cells, a5_get_res0_cells,
    a5_get_resolution, a5_uncompact,
};

fn encode(lon: f64, lat: f64, resolution: i32) -> i64 {
    encoded_cell_to_host(a5::lonlat_to_cell(LonLat::new(lon, lat), resolution)).unwrap()
}

fn times_square() -> i64 {
    encode(-73.9857, 40.7580, 10)
}

fn boundary(id: i64) -> Option<Vec<f64>> {
    let o = boundary_options_default();
    let options = a5::core::cell::CellToBoundaryOptions { closed_ring: o.closed_ring, segments: o.segments };
    let ring = a5::core::cell::cell_to_boundary(id as u64, Some(options))
        .map(|r| r.into_iter().map(|p| p.to_degrees()).collect::<Vec<(f64, f64)>>());
    boundary_flat(ring)
}

fn as_set(v: &[i64]) -> BTreeSet<i64> {
    v.iter().copied().collect()
}

#[test]
fn encode_decode_scenario() {
    let id = times_square();
    let center = center_pair(a5::cell_to_lonlat(id as u64).map(|p| p.to_degrees())).unwrap();
    let (lon, lat) = (center[0], center[1]);
    assert!(lon < -73.90 && lon > -74.05, "lon {}", lon);
    assert!(lat > 40.70 && lat < 40.80, "lat {}", lat);
}

#[test]
fn resolution_parent_children_scenario() {
    let id = times_square();
    assert_eq!(a5_get_resolution(id), 10);
    let parent = a5_cell_to_parent(id, 8).unwrap();
    assert_eq!(a5_get_resolution(parent), 8);
    let kids = a5_cell_to_children(id, 12).unwrap();
    assert_eq!(kids.len(), 16);
    assert!(kids.iter().all(|&k| a5_get_resolution(k) == 12));
    assert!(kids.iter().all(|&k| a5_cell_to_parent(k, 10).unwrap() == id));
}

#[test]
fn boundary_scenario_closed_by_default() {
    let id = times_square();
    let flat = boundary(id).unwrap();
    assert!(flat.len() >= 6);
    assert_eq!(flat.len() % 2, 0);
    let n = flat.len();
    assert_eq!(flat[0], flat[n - 2]);
    assert_eq!(flat[1], flat[n - 1]);
}

#[test]
fn base_cells_scenario() {
    let cells = a5_get_res0_cells().unwrap();
    assert_eq!(cells.len(), 12);
    assert_eq!(as_set(&cells).len(), 12);
    assert!(cells.iter().all(|&c| a5_get_resolution(c) == 0));
    assert_eq!(cells[0], 0x0200_0000_0000_0000);
    assert_eq!(cells[11], 11 * 0x0400_0000_0000_0000 + 0x0200_0000_0000_0000);
}

#[test]
fn siblings_compact_to_parent_and_back() {
    let id = times_square();
    let parent = a5_cell_to_parent(id, 9).unwrap();
    let siblings = a5_cell_to_children(parent, 10).unwrap();
    assert_eq!(siblings.len(), 4);
    assert!(siblings.contains(&id));
    assert_eq!(a5_compact(&siblings).unwrap(), vec![parent]);
    let back = a5_uncompact(&vec![parent], 10).unwrap();
    assert_eq!(as_set(&back), as_set(&siblings));
}

#[test]
fn compact_is_idempotent_on_a_sample() {
    let id = times_square();
    let grand = a5_cell_to_parent(id, 8).unwrap();
    let mut cells = a5_cell_to_children(grand, 10).unwrap();
    cells.truncate(13);
    let once = a5_compact(&cells).unwrap();
    assert!(once.len() < cells.len());
    assert_eq!(a5_compact(&once).unwrap(), once);
}

#[test]
fn uncompact_of_compact_covers_the_same_cells() {
    let id = times_square();
    let grand = a5_cell_to_parent(id, 8).unwrap();
    let mut cells = a5_cell_to_children(grand, 10).unwrap();
    cells.truncate(9);
    let once = a5_compact(&cells).unwrap();
    assert_eq!(as_set(&a5_uncompact(&once, 10).unwrap()), as_set(&cells));
}

#[test]
fn compact_of_nothing_is_nothing() {
    assert_eq!(a5_compact(&vec![]).unwrap(), Vec::<i64>::new());
}

#[test]
fn compact_refuses_negative_ids() {
    assert!(matches!(a5_compact(&vec![-1]), Err(GridError::Overflow { value }) if value == u64::MAX));
}

#[test]
fn parent_at_own_resolution_is_the_cell() {
    let id = times_square();
    assert_eq!(a5_cell_to_parent(id, 10).unwrap(), id);
    assert_eq!(a5_cell_to_children(id, 10).unwrap(), vec![id]);
}

#[test]
fn parent_range_errors() {
    let id = times_square();
    assert!(matches!(a5_cell_to_parent(id, 11), Err(GridError::HierarchyRange { resolution: 10, target: 11 })));
    assert!(matches!(a5_cell_to_parent(id, -1), Err(GridError::HierarchyRange { resolution: 10, target: -1 })));
}

#[test]
fn parent_of_undecodable_id() {
    let bad = ((63u64 << 58) | (1u64 << 57)) as i64;
    assert_eq!(a5_get_resolution(bad), 0);
    assert!(matches!(a5_cell_to_parent(bad, 0), Err(GridError::Decode { .. })));
}

#[test]
fn children_range_errors() {
    let id = times_square();
    assert!(matches!(a5_cell_to_children(id, 9), Err(GridError::HierarchyRange { resolution: 10, target: 9 })));
    assert!(matches!(a5_cell_to_children(id, 30), Err(GridError::ResolutionLimit { resolution: 30 })));
    let base = a5_get_res0_cells().unwrap()[0];
    assert!(matches!(a5_cell_to_children(base, 29), Err(GridError::ExpansionTooLarge { resolution: 0, target: 29 })));
}

#[test]
fn base_cell_splits_in_five() {
    let base = a5_get_res0_cells().unwrap()[3];
    let kids = a5_cell_to_children(base, 1).unwrap();
    assert_eq!(kids.len(), 5);
    let grandkids = a5_cell_to_children(kids[0], 3).unwrap();
    assert_eq!(grandkids.len(), 16);
}

#[test]
fn uncompact_errors() {
    let id = times_square();
    assert!(matches!(a5_uncompact(&vec![id], 9), Err(GridError::HierarchyRange { resolution: 10, target: 9 })));
    assert!(matches!(a5_uncompact(&vec![id], 30), Err(GridError::ResolutionLimit { resolution: 30 })));
    let base = a5_get_res0_cells().unwrap()[0];
    assert!(matches!(a5_uncompact(&vec![base], 25), Err(GridError::ExpansionTooLarge { .. })));
    assert_eq!(a5_uncompact(&vec![id], 10).unwrap(), vec![id]);
}

#[test]
fn num_cells_by_resolution() {
    assert_eq!(a5_get_num_cells(-1).unwrap(), 0);
    assert_eq!(a5_get_num_cells(0).unwrap(), 12);
    assert_eq!(a5_get_num_cells(1).unwrap(), 60);
    assert_eq!(a5_get_num_cells(2).unwrap(), 240);
    assert_eq!(a5_get_num_cells(29).unwrap(), 4323455642275676000);
    assert!(matches!(a5_get_num_cells(30), Err(GridError::Overflow { value: 17293822569102705000 })));
    assert!(matches!(a5_get_num_cells(31), Err(GridError::ResolutionLimit { resolution: 31 })));
}

#[test]
fn world_cell_has_an_empty_boundary() {
    assert_eq!(a5_get_resolution(0), -1);
    assert_eq!(boundary(0), Some(vec![]));
}

#[test]
fn undecodable_cell_has_no_boundary() {
    let bad = ((63u64 << 58) | (1u64 << 57)) as i64;
    assert_eq!(boundary(bad), None);
}

#[test]
fn children_of_undecodable_id() {
    let bad = ((63u64 << 58) | (1u64 << 57)) as i64;
    assert!(matches!(a5_cell_to_children(bad, 1), Err(GridError::Decode { .. })));
}

#[test]
fn uncompact_reports_finer_ids_before_sizes() {
    let id = times_square();
    let base = a5_get_res0_cells().unwrap()[0];
    assert!(matches!(a5_uncompact(&vec![base, id], 9), Err(GridError::HierarchyRange { resolution: 10, target: 9 })));
    assert!(matches!(a5_uncompact(&vec![], i32::MIN), Ok(v) if v.is_empty()));
    assert!(matches!(a5_uncompact(&vec![id], i32::MIN), Err(GridError::HierarchyRange { resolution: 10, .. })));
}

#[test]
fn compact_passes_through_incomplete_groups() {
    let id = times_square();
    assert_eq!(a5_compact(&vec![id]).unwrap(), vec![id]);
}
