use simconnect_sdk::{
    CallSequence, ClientEvent, FacilityType, NativeCall, NativeStep, NotificationGroup,
    SimConnect, SimConnectError, SystemEventRequest,
};

/// Answers each pending call with the next status and returns the calls issued.
fn drive(seq: &mut CallSequence, statuses: &[i32]) -> Vec<NativeCall> {
    let mut issued = Vec::new();
    for status in statuses {
        match seq.pending() {
            Some(call) => issued.push(call.clone()),
            None => break,
        }
        seq.report(*status);
    }
    issued
}

fn steps(calls: &[NativeCall]) -> Vec<NativeStep> {
    calls.iter().map(|c| c.step()).collect()
}

#[test]
fn register_event_issues_three_steps_in_order() {
    let session = SimConnect::new();
    let mut seq = session.register_event(ClientEvent::GearUp, NotificationGroup::Group0);
    let issued = drive(&mut seq, &[0, 0, 0]);
    assert_eq!(
        steps(&issued),
        vec![
            NativeStep::MapClientEventToSimEvent,
            NativeStep::AddClientEventToNotificationGroup,
            NativeStep::SetNotificationGroupPriority,
        ]
    );
    match &issued[0] {
        NativeCall::MapClientEventToSimEvent { event_id, event_name } => {
            assert_eq!(*event_id, 4);
            assert_eq!(event_name.as_str(), "GEAR_UP");
        }
        other => panic!("unexpected call {:?}", other),
    }
    assert!(matches!(
        issued[1],
        NativeCall::AddClientEventToNotificationGroup { group_id: 0, event_id: 4, maskable: false }
    ));
    assert!(matches!(
        issued[2],
        NativeCall::SetNotificationGroupPriority { group_id: 0, priority: 1 }
    ));
    assert!(seq.pending().is_none());
    assert!(matches!(seq.outcome(), Some(Ok(()))));
}

#[test]
fn register_event_stops_at_rejected_grouping() {
    let session = SimConnect::new();
    let mut seq = session.register_event(ClientEvent::Brakes, NotificationGroup::Group0);
    assert!(seq.outcome().is_none());
    let issued = drive(&mut seq, &[0, -1, 0]);
    assert_eq!(
        steps(&issued),
        vec![NativeStep::MapClientEventToSimEvent, NativeStep::AddClientEventToNotificationGroup]
    );
    assert!(seq.pending().is_none());
    assert!(matches!(
        seq.outcome(),
        Some(Err(SimConnectError::NativeCallRejected(
            NativeStep::AddClientEventToNotificationGroup,
            -1
        )))
    ));
}

#[test]
fn register_event_stops_at_rejected_mapping() {
    let session = SimConnect::new();
    let mut seq = session.register_event(ClientEvent::ParkingBrakes, NotificationGroup::Group0);
    let issued = drive(&mut seq, &[-5, 0, 0]);
    assert_eq!(steps(&issued), vec![NativeStep::MapClientEventToSimEvent]);
    assert!(matches!(
        seq.outcome(),
        Some(Err(SimConnectError::NativeCallRejected(NativeStep::MapClientEventToSimEvent, -5)))
    ));
}

#[test]
fn report_without_pending_call_changes_nothing() {
    let session = SimConnect::new();
    let mut seq = session.unsubscribe_from_system_event(SystemEventRequest::Pause);
    seq.report(0);
    seq.report(7);
    assert!(matches!(seq.outcome(), Some(Ok(()))));
}

#[test]
fn map_client_event_carries_id_and_name() {
    let session = SimConnect::new();
    let mut seq = session.map_client_event_to_sim_event(42, "AP_MASTER");
    let issued = drive(&mut seq, &[0]);
    match &issued[..] {
        [NativeCall::MapClientEventToSimEvent { event_id, event_name }] => {
            assert_eq!(*event_id, 42);
            assert_eq!(event_name.as_str(), "AP_MASTER");
        }
        other => panic!("unexpected calls {:?}", other),
    }
    assert!(matches!(seq.outcome(), Some(Ok(()))));
}

#[test]
fn transmit_event_goes_to_user_aircraft_at_highest_priority() {
    let session = SimConnect::new();
    let mut seq = session.transmit_event(7, 1234);
    let issued = drive(&mut seq, &[3]);
    assert!(matches!(
        issued[..],
        [NativeCall::TransmitClientEvent { object_id: 0, event_id: 7, data: 1234, priority: 1, flags: 16 }]
    ));
    assert!(matches!(
        seq.outcome(),
        Some(Err(SimConnectError::NativeCallRejected(NativeStep::TransmitClientEvent, 3)))
    ));
}

#[test]
fn system_event_subscription_uses_vocabulary_name() {
    let session = SimConnect::new();
    let mut seq = session.subscribe_to_system_event(SystemEventRequest::OneSecond);
    let issued = drive(&mut seq, &[0]);
    match &issued[..] {
        [NativeCall::SubscribeToSystemEvent { event_id, event_name }] => {
            assert_eq!(*event_id, 0);
            assert_eq!(event_name.as_str(), "1sec");
        }
        other => panic!("unexpected calls {:?}", other),
    }
    let mut seq = session.subscribe_to_system_event(SystemEventRequest::SimStart);
    let issued = drive(&mut seq, &[0]);
    assert!(matches!(
        &issued[..],
        [NativeCall::SubscribeToSystemEvent { event_id: 16, event_name }] if event_name.as_str() == "SimStart"
    ));
}

#[test]
fn system_event_unsubscription_is_keyed_by_id() {
    let session = SimConnect::new();
    let mut seq = session.unsubscribe_from_system_event(SystemEventRequest::Paused);
    let issued = drive(&mut seq, &[-1]);
    assert!(matches!(issued[..], [NativeCall::UnsubscribeFromSystemEvent { event_id: 12 }]));
    assert!(matches!(
        seq.outcome(),
        Some(Err(SimConnectError::NativeCallRejected(NativeStep::UnsubscribeFromSystemEvent, -1)))
    ));
}

#[test]
fn facility_subscription_carries_allocated_id() {
    let mut session = SimConnect::new();
    let mut seq = session.subscribe_to_facilities(FacilityType::VOR).unwrap();
    let issued = drive(&mut seq, &[0]);
    assert!(matches!(
        issued[..],
        [NativeCall::SubscribeToFacilities { facility_type: 3, request_id: 0 }]
    ));
    assert_eq!(session.request_id_of("VOR"), Some(0));
    let mut seq = session.request_facilities_list(FacilityType::Waypoint).unwrap();
    let issued = drive(&mut seq, &[0]);
    assert!(matches!(
        issued[..],
        [NativeCall::RequestFacilitiesList { facility_type: 1, request_id: 1 }]
    ));
}

#[test]
fn duplicate_facility_subscription_issues_no_call() {
    let mut session = SimConnect::new();
    assert!(session.subscribe_to_facilities(FacilityType::Airport).is_ok());
    let second = session.subscribe_to_facilities(FacilityType::Airport);
    assert!(matches!(
        second,
        Err(SimConnectError::ObjectAlreadyRegistered(ref k)) if k.as_str() == "Airport"
    ));
    let list = session.request_facilities_list(FacilityType::Airport);
    assert!(matches!(list, Err(SimConnectError::ObjectAlreadyRegistered(_))));
    assert_eq!(session.live_count(), 1);
}

#[test]
fn failed_facility_unsubscribe_keeps_guard() {
    let mut session = SimConnect::new();
    assert!(session.subscribe_to_facilities(FacilityType::Airport).is_ok());
    let call = session.unsubscribe_to_facilities_call(FacilityType::Airport);
    assert!(matches!(call, NativeCall::UnsubscribeToFacilities { facility_type: 0 }));
    let r = session.unsubscribe_to_facilities(FacilityType::Airport, -1);
    assert!(matches!(
        r,
        Err(SimConnectError::NativeCallRejected(NativeStep::UnsubscribeToFacilities, -1))
    ));
    assert_eq!(session.request_id_of("Airport"), Some(0));
    let again = session.subscribe_to_facilities(FacilityType::Airport);
    assert!(matches!(again, Err(SimConnectError::ObjectAlreadyRegistered(_))));
}

#[test]
fn accepted_facility_unsubscribe_releases_guard() {
    let mut session = SimConnect::new();
    assert!(session.subscribe_to_facilities(FacilityType::NDB).is_ok());
    assert!(session.unsubscribe_to_facilities(FacilityType::NDB, 0).is_ok());
    assert_eq!(session.request_id_of("NDB"), None);
    assert_eq!(session.live_count(), 0);
    assert!(session.subscribe_to_facilities(FacilityType::NDB).is_ok());
    assert!(session.unsubscribe_to_facilities(FacilityType::Waypoint, 0).is_ok());
    assert_eq!(session.live_count(), 1);
}

#[test]
fn descriptor_names_and_codes() {
    assert_eq!(FacilityType::Airport.to_type_name(), "Airport");
    assert_eq!(FacilityType::VOR.code(), 3);
    assert_eq!(ClientEvent::GearToggle.id(), 6);
    assert_eq!(ClientEvent::BrakesLeft.name(), "BRAKES_LEFT");
    assert_eq!(SystemEventRequest::SixTimesPerSecond.name(), "6Hz");
    assert_eq!(SystemEventRequest::View.id(), 20);
    assert_eq!(NotificationGroup::Group0.id(), 0);
}

#[test]
fn rejected_facility_subscribe_releases_its_id() {
    let mut session = SimConnect::new();
    let mut seq = session.subscribe_to_facilities(FacilityType::Airport).unwrap();
    let issued = drive(&mut seq, &[-1]);
    assert_eq!(steps(&issued), vec![NativeStep::SubscribeToFacilities]);
    let r = session.facilities_request_answered(
        FacilityType::Airport,
        NativeStep::SubscribeToFacilities,
        -1,
    );
    assert!(matches!(
        r,
        Err(SimConnectError::NativeCallRejected(NativeStep::SubscribeToFacilities, -1))
    ));
    assert_eq!(session.request_id_of("Airport"), None);
    assert_eq!(session.live_count(), 0);
    let mut retry = session.subscribe_to_facilities(FacilityType::Airport).unwrap();
    let issued = drive(&mut retry, &[0]);
    assert!(matches!(
        issued[..],
        [NativeCall::SubscribeToFacilities { facility_type: 0, request_id: 0 }]
    ));
    assert!(session
        .facilities_request_answered(FacilityType::Airport, NativeStep::SubscribeToFacilities, 0)
        .is_ok());
    assert_eq!(session.request_id_of("Airport"), Some(0));
}

#[test]
fn rejected_facility_list_request_releases_its_id() {
    let mut session = SimConnect::new();
    session.subscribe_to_facilities(FacilityType::VOR).unwrap();
    session.request_facilities_list(FacilityType::NDB).unwrap();
    assert_eq!(session.request_id_of("NDB"), Some(1));
    let r = session.facilities_request_answered(
        FacilityType::NDB,
        NativeStep::RequestFacilitiesList,
        5,
    );
    assert!(matches!(
        r,
        Err(SimConnectError::NativeCallRejected(NativeStep::RequestFacilitiesList, 5))
    ));
    assert_eq!(session.request_id_of("NDB"), None);
    assert_eq!(session.request_id_of("VOR"), Some(0));
    assert!(session.request_facilities_list(FacilityType::NDB).is_ok());
}
