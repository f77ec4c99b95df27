use vstd::prelude::*;

use crate::descriptors::{ClientEvent, NotificationGroup, SystemEventRequest};
use crate::error::{NativeStep, SimConnectError};
use crate::native::{
    next_call, plan_outcome, reachable, rejected, CallModel, CallSequence, NativeCall,
    EVENT_FLAG_GROUPID_IS_PRIORITY, GROUP_PRIORITY_HIGHEST, OBJECT_ID_USER,
};
use crate::request_ids::SimConnect;

verus! {

/// The calls that make `event` live in `group`: map it onto its simulator
/// event, add it to the group, then give the group the highest priority.
pub open spec fn register_plan(event: ClientEvent, group: NotificationGroup) -> Seq<CallModel> {
    seq![
        CallModel::MapClientEventToSimEvent {
            event_id: event.spec_id(),
            event_name: event.spec_name(),
        },
        CallModel::AddClientEventToNotificationGroup {
            group_id: group.spec_id(),
            event_id: event.spec_id(),
            maskable: false,
        },
        CallModel::SetNotificationGroupPriority {
            group_id: group.spec_id(),
            priority: GROUP_PRIORITY_HIGHEST,
        },
    ]
}

/// The steps of registering an event, in the order they are issued.
pub open spec fn register_steps() -> Seq<NativeStep> {
    seq![
        NativeStep::MapClientEventToSimEvent,
        NativeStep::AddClientEventToNotificationGroup,
        NativeStep::SetNotificationGroupPriority,
    ]
}

impl SimConnect {
    /// Associates a client event with its simulator event, adds it to
    /// `notification_group` and gives that group the highest priority, in
    /// that order; the first rejected call ends the registration, leaving the
    /// steps before it in place.
    pub fn register_event(&self, event: ClientEvent, notification_group: NotificationGroup) -> (r:
        CallSequence)
        ensures
            r.wf(),
            r.plan() == register_plan(event, notification_group),
            r.answers() == Seq::<i32>::empty(),
    {
        let event_id = event.id();
        let group_id = notification_group.id();
        let mut calls: Vec<NativeCall> = Vec::new();
        calls.push(
            NativeCall::MapClientEventToSimEvent {
                event_id,
                event_name: String::from_str(event.name()),
            },
        );
        calls.push(
            NativeCall::AddClientEventToNotificationGroup { group_id, event_id, maskable: false },
        );
        calls.push(
            NativeCall::SetNotificationGroupPriority { group_id, priority: GROUP_PRIORITY_HIGHEST },
        );
        let r = CallSequence::new(calls);
        assert(r.plan() =~= register_plan(event, notification_group));
        r
    }

    /// Associates the client event `event_id` with the simulator event named
    /// `event_name`.
    pub fn map_client_event_to_sim_event(&self, event_id: u32, event_name: &str) -> (r:
        CallSequence)
        ensures
            r.wf(),
            r.plan() == seq![
                CallModel::MapClientEventToSimEvent { event_id, event_name: event_name@ },
            ],
            r.answers() == Seq::<i32>::empty(),
    {
        let mut calls: Vec<NativeCall> = Vec::new();
        calls.push(
            NativeCall::MapClientEventToSimEvent {
                event_id,
                event_name: String::from_str(event_name),
            },
        );
        let r = CallSequence::new(calls);
        assert(r.plan() =~= seq![
            CallModel::MapClientEventToSimEvent { event_id, event_name: event_name@ },
        ]);
        r
    }

    /// Sends the mapped client event `event_id`, with `data`, to the user's
    /// aircraft at the highest priority.
    pub fn transmit_event(&self, event_id: u32, data: u32) -> (r: CallSequence)
        ensures
            r.wf(),
            r.plan() == seq![
                CallModel::TransmitClientEvent {
                    object_id: OBJECT_ID_USER,
                    event_id,
                    data,
                    priority: GROUP_PRIORITY_HIGHEST,
                    flags: EVENT_FLAG_GROUPID_IS_PRIORITY,
                },
            ],
            r.answers() == Seq::<i32>::empty(),
    {
        let mut calls: Vec<NativeCall> = Vec::new();
        calls.push(
            NativeCall::TransmitClientEvent {
                object_id: OBJECT_ID_USER,
                event_id,
                data,
                priority: GROUP_PRIORITY_HIGHEST,
                flags: EVENT_FLAG_GROUPID_IS_PRIORITY,
            },
        );
        let r = CallSequence::new(calls);
        assert(r.plan() =~= seq![
            CallModel::TransmitClientEvent {
                object_id: OBJECT_ID_USER,
                event_id,
                data,
                priority: GROUP_PRIORITY_HIGHEST,
                flags: EVENT_FLAG_GROUPID_IS_PRIORITY,
            },
        ]);
        r
    }

    /// Asks that the system event `event` be notified to the client.
    pub fn subscribe_to_system_event(&self, event: SystemEventRequest) -> (r: CallSequence)
        ensures
            r.wf(),
            r.plan() == seq![
                CallModel::SubscribeToSystemEvent {
                    event_id: event.spec_id(),
                    event_name: event.spec_name(),
                },
            ],
            r.answers() == Seq::<i32>::empty(),
    {
        let mut calls: Vec<NativeCall> = Vec::new();
        calls.push(
            NativeCall::SubscribeToSystemEvent {
                event_id: event.id(),
                event_name: String::from_str(event.name()),
            },
        );
        let r = CallSequence::new(calls);
        assert(r.plan() =~= seq![
            CallModel::SubscribeToSystemEvent {
                event_id: event.spec_id(),
                event_name: event.spec_name(),
            },
        ]);
        r
    }

    /// Asks that the system event `event` be no longer notified.
    pub fn unsubscribe_from_system_event(&self, event: SystemEventRequest) -> (r: CallSequence)
        ensures
            r.wf(),
            r.plan() == seq![CallModel::UnsubscribeFromSystemEvent { event_id: event.spec_id() }],
            r.answers() == Seq::<i32>::empty(),
    {
        let mut calls: Vec<NativeCall> = Vec::new();
        calls.push(NativeCall::UnsubscribeFromSystemEvent { event_id: event.id() });
        let r = CallSequence::new(calls);
        assert(r.plan() =~= seq![
            CallModel::UnsubscribeFromSystemEvent { event_id: event.spec_id() },
        ]);
        r
    }
}

/// Registering an event issues the mapping, the grouping and the priority
/// calls, in that order, each only once the one before it was accepted. The
/// first rejection ends the registration with the error of that step, and no
/// later call is issued; once all three are accepted it succeeds.
pub proof fn lemma_register_event_sequencing(
    event: ClientEvent,
    group: NotificationGroup,
    answers: Seq<i32>,
)
    requires
        reachable(register_plan(event, group), answers),
    ensures
        register_plan(event, group).map_values(|c: CallModel| c.step()) == register_steps(),
        rejected(answers) ==> next_call(register_plan(event, group), answers) is None,
        rejected(answers) ==> plan_outcome(register_plan(event, group), answers) == Some(
            Err::<(), SimConnectError>(
                SimConnectError::NativeCallRejected(
                    register_steps()[answers.len() - 1],
                    answers.last(),
                ),
            ),
        ),
        !rejected(answers) && answers.len() < 3 ==> next_call(register_plan(event, group), answers)
            == Some(register_plan(event, group)[answers.len() as int]),
        !rejected(answers) && answers.len() == 3 ==> plan_outcome(
            register_plan(event, group),
            answers,
        ) == Some(Ok::<(), SimConnectError>(())),
{
    let plan = register_plan(event, group);
    assert(plan.map_values(|c: CallModel| c.step()) =~= register_steps());
    if answers.len() > 0 {
        assert(plan[answers.len() - 1].step() == register_steps()[answers.len() - 1]);
        if !rejected(answers) {
            let a = answers;
            assert forall|i: int| 0 <= i < a.len() implies crate::error::is_success(a[i]) by {
                if i < a.len() - 1 {
                    assert(a.drop_last()[i] == a[i]);
                }
            }
        }
    }
}

} // verus!
