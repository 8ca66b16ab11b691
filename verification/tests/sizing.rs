use arc_core::core_ds::constant::SERIALIZED_COMPONENT_EXTRA_SPACE;
use arc_core::core_ds::sizing::{compute_comp_arr_max_size, get_removed_size};
use arc_core::core_ds::state::SerializedComponent;
use arc_core::error::ComponentError;
use arc_core::runtime::Pubkey;
use std::collections::BTreeMap;

fn component(max_size: u64, len: usize) -> SerializedComponent {
    SerializedComponent { max_size, data: vec![7u8; len] }
}

#[test]
fn set_size_is_the_sum_of_declared_sizes_and_overhead() {
    let components = vec![component(64, 10), component(100, 0), component(1, 1)];
    assert_eq!(compute_comp_arr_max_size(&components), Ok(64 + 100 + 1 + 3 * 44));
    assert_eq!(SERIALIZED_COMPONENT_EXTRA_SPACE, 44);
}

#[test]
fn set_size_of_nothing_is_zero() {
    assert_eq!(compute_comp_arr_max_size(&Vec::new()), Ok(0));
}

#[test]
fn set_size_does_not_depend_on_order() {
    let a = vec![component(64, 10), component(100, 0), component(1, 1)];
    let b = vec![component(1, 1), component(64, 10), component(100, 0)];
    assert_eq!(compute_comp_arr_max_size(&a), compute_comp_arr_max_size(&b));
}

#[test]
fn set_size_overflow_is_reported() {
    let components = vec![component(u64::MAX, 0), component(u64::MAX, 0)];
    assert_eq!(compute_comp_arr_max_size(&components), Err(ComponentError::SizeOverflow));
}

#[test]
fn removed_size_counts_the_stored_declared_size() {
    let a: Pubkey = (0, 1);
    let b: Pubkey = (0, 2);
    let mut map = BTreeMap::new();
    map.insert(a, component(64, 3));
    map.insert(b, component(10, 10));
    assert_eq!(get_removed_size(&map, &vec![a]), Ok(64 + 44));
    assert_eq!(get_removed_size(&map, &vec![b, a]), Ok(64 + 10 + 88));
    assert_eq!(get_removed_size(&map, &vec![]), Ok(0));
}

#[test]
fn removed_size_of_an_absent_key_is_not_found() {
    let a: Pubkey = (0, 1);
    let missing: Pubkey = (9, 9);
    let mut map = BTreeMap::new();
    map.insert(a, component(64, 3));
    assert_eq!(get_removed_size(&map, &vec![a, missing]), Err(ComponentError::NotFound));
    assert_eq!(get_removed_size(&map, &vec![missing, a]), Err(ComponentError::NotFound));
    assert_eq!(get_removed_size(&BTreeMap::new(), &vec![a]), Err(ComponentError::NotFound));
}

#[test]
fn removed_size_reports_a_missing_key_before_an_overflow() {
    let a: Pubkey = (0, 1);
    let missing: Pubkey = (9, 9);
    let mut map = BTreeMap::new();
    map.insert(a, component(u64::MAX, 0));
    assert_eq!(get_removed_size(&map, &vec![a, a]), Err(ComponentError::SizeOverflow));
    assert_eq!(get_removed_size(&map, &vec![a, a, missing]), Err(ComponentError::NotFound));
}
