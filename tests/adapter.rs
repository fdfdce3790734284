use a5pg::adapter::{decoded_cell_to_host, decoded_cells_to_host, encoded_cell_to_host, ids_to_engine, ids_to_host, to_engine, to_host};
use a5pg::error::GridError;

#[test]
fn to_host_keeps_the_largest_signed_value() {
    assert_eq!(to_host(i64::MAX as u64).unwrap(), i64::MAX);
    assert_eq!(to_host(0).unwrap(), 0);
    assert_eq!(to_host(12345).unwrap(), 12345);
}

#[test]
fn to_host_refuses_values_above_the_signed_maximum() {
    let big = (i64::MAX as u64) + 1;
    match to_host(big) {
        Err(GridError::Overflow { value }) => assert_eq!(value, big),
        other => panic!("expected an overflow, got {:?}", other),
    }
    assert!(matches!(to_host(u64::MAX), Err(GridError::Overflow { value }) if value == u64::MAX));
}

#[test]
fn to_engine_reinterprets_the_bit_pattern() {
    assert_eq!(to_engine(5), 5);
    assert_eq!(to_engine(-1), u64::MAX);
    assert_eq!(to_engine(i64::MIN), 1u64 << 63);
    assert_eq!(to_engine(i64::MAX), i64::MAX as u64);
}

#[test]
fn host_round_trip_on_representable_ids() {
    for id in [0u64, 1, 0x0200_0000_0000_0000, i64::MAX as u64] {
        assert_eq!(to_engine(to_host(id).unwrap()), id);
    }
}

#[test]
fn ids_to_host_names_the_first_unrepresentable_id() {
    let ids = vec![7u64, u64::MAX - 1, u64::MAX];
    assert!(matches!(ids_to_host(&ids), Err(GridError::Overflow { value }) if value == u64::MAX - 1));
    let fine = vec![7u64, 8, 9];
    assert_eq!(ids_to_host(&fine).unwrap(), vec![7i64, 8, 9]);
    assert_eq!(ids_to_engine(&vec![-1i64, 3]), vec![u64::MAX, 3]);
}

#[test]
fn encoded_cell_to_host_maps_engine_results() {
    assert_eq!(encoded_cell_to_host(Ok(42)).unwrap(), 42);
    assert!(matches!(encoded_cell_to_host(Err("bad".to_string())), Err(GridError::Encode { message }) if message == "bad"));
    assert!(matches!(encoded_cell_to_host(Ok(u64::MAX)), Err(GridError::Overflow { value }) if value == u64::MAX));
}

#[test]
fn decoded_results_map_to_decode_errors() {
    assert_eq!(decoded_cell_to_host(Ok(9)).unwrap(), 9);
    assert!(matches!(decoded_cell_to_host(Err("no".to_string())), Err(GridError::Decode { message }) if message == "no"));
    assert!(matches!(decoded_cell_to_host(Ok(1u64 << 63)), Err(GridError::Overflow { value }) if value == 1u64 << 63));
    assert_eq!(decoded_cells_to_host(Ok(vec![1, 2])).unwrap(), vec![1i64, 2]);
    assert!(matches!(decoded_cells_to_host(Err("no".to_string())), Err(GridError::Decode { .. })));
    assert!(matches!(decoded_cells_to_host(Ok(vec![1, u64::MAX])), Err(GridError::Overflow { value }) if value == u64::MAX));
}
