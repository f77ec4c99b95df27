use simconnect_sdk::{SimConnect, SimConnectError};

fn is_already_registered(r: &Result<u32, SimConnectError>, key: &str) -> bool {
    matches!(r, Err(SimConnectError::ObjectAlreadyRegistered(k)) if k.as_str() == key)
}

#[test]
fn allocate_reject_reclaim_reallocate() {
    let mut session = SimConnect::new();
    assert_eq!(session.new_request_id("AIRPORT".to_string()).unwrap(), 0);
    let second = session.new_request_id("AIRPORT".to_string());
    assert!(is_already_registered(&second, "AIRPORT"));
    session.unregister_request_id_by_type_name("AIRPORT");
    assert_eq!(session.request_id_of("AIRPORT"), None);
    assert_eq!(session.new_request_id("AIRPORT".to_string()).unwrap(), 0);
}

#[test]
fn live_categories_hold_distinct_ids() {
    let mut session = SimConnect::new();
    let a = session.new_request_id("Airport".to_string()).unwrap();
    let b = session.new_request_id("Waypoint".to_string()).unwrap();
    let c = session.new_request_id("NDB".to_string()).unwrap();
    assert_eq!((a, b, c), (0, 1, 2));
    assert_eq!(session.live_count(), 3);
    assert_eq!(session.request_id_of("Waypoint"), Some(1));
}

#[test]
fn smallest_free_id_is_reused() {
    let mut session = SimConnect::new();
    session.new_request_id("Airport".to_string()).unwrap();
    session.new_request_id("Waypoint".to_string()).unwrap();
    session.new_request_id("NDB".to_string()).unwrap();
    session.unregister_request_id_by_type_name("Waypoint");
    assert_eq!(session.new_request_id("VOR".to_string()).unwrap(), 1);
    assert_eq!(session.new_request_id("Frame".to_string()).unwrap(), 3);
    assert_eq!(session.request_id_of("Airport"), Some(0));
    assert_eq!(session.request_id_of("NDB"), Some(2));
}

#[test]
fn second_allocation_for_a_category_is_refused() {
    let mut session = SimConnect::new();
    assert!(session.new_request_id("airport".to_string()).is_ok());
    let second = session.new_request_id("airport".to_string());
    assert!(is_already_registered(&second, "airport"));
    assert_eq!(session.live_count(), 1);
    assert_eq!(session.request_id_of("airport"), Some(0));
}

#[test]
fn category_keys_match_exactly() {
    let mut session = SimConnect::new();
    assert_eq!(session.new_request_id("airport".to_string()).unwrap(), 0);
    assert_eq!(session.new_request_id("AIRPORT".to_string()).unwrap(), 1);
}

#[test]
fn releasing_an_absent_category_changes_nothing() {
    let mut session = SimConnect::new();
    session.unregister_request_id_by_type_name("airport");
    assert_eq!(session.live_count(), 0);
    session.new_request_id("Airport".to_string()).unwrap();
    session.unregister_request_id_by_type_name("airport");
    session.unregister_request_id_by_type_name("airport");
    assert_eq!(session.live_count(), 1);
    assert_eq!(session.request_id_of("Airport"), Some(0));
}
