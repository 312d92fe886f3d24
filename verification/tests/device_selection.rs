use compute_core::device::{
    capability_or_sentinel, find_most_capable_device, select_most_capable, Capability,
    DeviceProfile, OclDevice, QUERY_FAILURE_SENTINEL,
};

fn profile(name: &str, cu: i64) -> DeviceProfile {
    DeviceProfile {
        name: name.to_string(),
        compute_units: cu,
        local_mem_size: 0,
        global_mem_size: 0,
    }
}

#[test]
fn first_of_tied_maximum_wins() {
    let devices = vec![profile("A", 4), profile("B", 8), profile("C", 8)];
    let selected = find_most_capable_device(Some(devices)).unwrap();
    assert_eq!(selected.name, "B");
    assert_eq!(selected.compute_units, 8);
}

#[test]
fn empty_list_selects_none() {
    let selected = find_most_capable_device(Some(Vec::new()));
    assert!(selected.is_none());
}

#[test]
fn enumeration_failure_selects_none() {
    let selected = find_most_capable_device(None);
    assert!(selected.is_none());
}

#[test]
fn single_device_is_selected() {
    let devices = vec![profile("only", 1)];
    assert_eq!(select_most_capable(&devices), Some(0));
}

#[test]
fn strictly_increasing_selects_last() {
    let devices = vec![profile("a", 1), profile("b", 2), profile("c", 3)];
    assert_eq!(select_most_capable(&devices), Some(2));
}

#[test]
fn all_equal_selects_first() {
    let devices = vec![profile("a", 5), profile("b", 5), profile("c", 5)];
    assert_eq!(select_most_capable(&devices), Some(0));
}

#[test]
fn failed_query_reports_sentinel() {
    assert_eq!(capability_or_sentinel(&Capability::QueryFailed), -1);
    assert_eq!(capability_or_sentinel(&Capability::QueryFailed), QUERY_FAILURE_SENTINEL);
    assert_eq!(capability_or_sentinel(&Capability::Value(42)), 42);
}

#[test]
fn failed_memory_query_does_not_disqualify() {
    let weak = DeviceProfile::from_queries(
        "weak".to_string(),
        Capability::Value(2),
        Capability::Value(1024),
        Capability::Value(4096),
    );
    let strong = DeviceProfile::from_queries(
        "strong".to_string(),
        Capability::Value(16),
        Capability::QueryFailed,
        Capability::Value(8192),
    );
    assert_eq!(strong.local_mem_size, -1);
    let selected = find_most_capable_device(Some(vec![weak, strong])).unwrap();
    assert_eq!(selected.name, "strong");
    assert_eq!(selected.get_local_mem_size(), -1);
    assert_eq!(selected.get_compute_units(), 16);
    assert_eq!(selected.get_global_mem_size(), 8192);
}

#[test]
fn failed_query_scan_continues() {
    let a = DeviceProfile::from_queries(
        "a".to_string(),
        Capability::QueryFailed,
        Capability::QueryFailed,
        Capability::QueryFailed,
    );
    let b = DeviceProfile::from_queries(
        "b".to_string(),
        Capability::Value(1),
        Capability::Value(1),
        Capability::Value(1),
    );
    assert_eq!(a.compute_units, -1);
    let selected = find_most_capable_device(Some(vec![a, b])).unwrap();
    assert_eq!(selected.name, "b");
}
