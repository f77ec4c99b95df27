use vstd::prelude::*;

use crate::error::{is_success, NativeStep, SimConnectError};

verus! {

/// Object id of the user's aircraft.
pub const OBJECT_ID_USER: u32 = 0;

/// The highest priority a notification group can have.
pub const GROUP_PRIORITY_HIGHEST: u32 = 1;

/// Flag of a transmitted event: its group argument is a priority.
pub const EVENT_FLAG_GROUPID_IS_PRIORITY: u32 = 16;

/// A call into the native service, with the arguments it is to be issued with.
#[derive(Clone, Debug)]
pub enum NativeCall {
    MapClientEventToSimEvent { event_id: u32, event_name: String },
    AddClientEventToNotificationGroup { group_id: u32, event_id: u32, maskable: bool },
    SetNotificationGroupPriority { group_id: u32, priority: u32 },
    TransmitClientEvent { object_id: u32, event_id: u32, data: u32, priority: u32, flags: u32 },
    SubscribeToSystemEvent { event_id: u32, event_name: String },
    UnsubscribeFromSystemEvent { event_id: u32 },
    RequestFacilitiesList { facility_type: u32, request_id: u32 },
    SubscribeToFacilities { facility_type: u32, request_id: u32 },
    UnsubscribeToFacilities { facility_type: u32 },
}

/// A native call with its strings seen as sequences of characters.
pub enum CallModel {
    MapClientEventToSimEvent { event_id: u32, event_name: Seq<char> },
    AddClientEventToNotificationGroup { group_id: u32, event_id: u32, maskable: bool },
    SetNotificationGroupPriority { group_id: u32, priority: u32 },
    TransmitClientEvent { object_id: u32, event_id: u32, data: u32, priority: u32, flags: u32 },
    SubscribeToSystemEvent { event_id: u32, event_name: Seq<char> },
    UnsubscribeFromSystemEvent { event_id: u32 },
    RequestFacilitiesList { facility_type: u32, request_id: u32 },
    SubscribeToFacilities { facility_type: u32, request_id: u32 },
    UnsubscribeToFacilities { facility_type: u32 },
}

impl View for NativeCall {
    type V = CallModel;

    open spec fn view(&self) -> CallModel {
        match *self {
            NativeCall::MapClientEventToSimEvent { event_id, event_name } => {
                CallModel::MapClientEventToSimEvent { event_id, event_name: event_name@ }
            },
            NativeCall::AddClientEventToNotificationGroup { group_id, event_id, maskable } => {
                CallModel::AddClientEventToNotificationGroup { group_id, event_id, maskable }
            },
            NativeCall::SetNotificationGroupPriority { group_id, priority } => {
                CallModel::SetNotificationGroupPriority { group_id, priority }
            },
            NativeCall::TransmitClientEvent { object_id, event_id, data, priority, flags } => {
                CallModel::TransmitClientEvent { object_id, event_id, data, priority, flags }
            },
            NativeCall::SubscribeToSystemEvent { event_id, event_name } => {
                CallModel::SubscribeToSystemEvent { event_id, event_name: event_name@ }
            },
            NativeCall::UnsubscribeFromSystemEvent { event_id } => {
                CallModel::UnsubscribeFromSystemEvent { event_id }
            },
            NativeCall::RequestFacilitiesList { facility_type, request_id } => {
                CallModel::RequestFacilitiesList { facility_type, request_id }
            },
            NativeCall::SubscribeToFacilities { facility_type, request_id } => {
                CallModel::SubscribeToFacilities { facility_type, request_id }
            },
            NativeCall::UnsubscribeToFacilities { facility_type } => {
                CallModel::UnsubscribeToFacilities { facility_type }
            },
        }
    }
}

impl CallModel {
    /// The step that this call performs.
    pub open spec fn step(self) -> NativeStep {
        match self {
            CallModel::MapClientEventToSimEvent { .. } => NativeStep::MapClientEventToSimEvent,
            CallModel::AddClientEventToNotificationGroup {
                ..
            } => NativeStep::AddClientEventToNotificationGroup,
            CallModel::SetNotificationGroupPriority { .. } => NativeStep::SetNotificationGroupPriority,
            CallModel::TransmitClientEvent { .. } => NativeStep::TransmitClientEvent,
            CallModel::SubscribeToSystemEvent { .. } => NativeStep::SubscribeToSystemEvent,
            CallModel::UnsubscribeFromSystemEvent { .. } => NativeStep::UnsubscribeFromSystemEvent,
            CallModel::RequestFacilitiesList { .. } => NativeStep::RequestFacilitiesList,
            CallModel::SubscribeToFacilities { .. } => NativeStep::SubscribeToFacilities,
            CallModel::UnsubscribeToFacilities { .. } => NativeStep::UnsubscribeToFacilities,
        }
    }
}

impl NativeCall {
    /// The step that this call performs.
    pub fn step(&self) -> (r: NativeStep)
        ensures
            r == self@.step(),
    {
        match self {
            NativeCall::MapClientEventToSimEvent { .. } => NativeStep::MapClientEventToSimEvent,
            NativeCall::AddClientEventToNotificationGroup {
                ..
            } => NativeStep::AddClientEventToNotificationGroup,
            NativeCall::SetNotificationGroupPriority { .. } => NativeStep::SetNotificationGroupPriority,
            NativeCall::TransmitClientEvent { .. } => NativeStep::TransmitClientEvent,
            NativeCall::SubscribeToSystemEvent { .. } => NativeStep::SubscribeToSystemEvent,
            NativeCall::UnsubscribeFromSystemEvent { .. } => NativeStep::UnsubscribeFromSystemEvent,
            NativeCall::RequestFacilitiesList { .. } => NativeStep::RequestFacilitiesList,
            NativeCall::SubscribeToFacilities { .. } => NativeStep::SubscribeToFacilities,
            NativeCall::UnsubscribeToFacilities { .. } => NativeStep::UnsubscribeToFacilities,
        }
    }
}

/// Every status in `answers` is a success.
pub open spec fn all_accepted(answers: Seq<i32>) -> bool {
    forall|i: int| 0 <= i < answers.len() ==> is_success(#[trigger] answers[i])
}

/// The last status in `answers` is a rejection.
pub open spec fn rejected(answers: Seq<i32>) -> bool {
    answers.len() > 0 && !is_success(answers.last())
}

/// The service can have given `answers` to the first calls of `plan`: no
/// more answers than calls, and none after a rejection.
pub open spec fn reachable(plan: Seq<CallModel>, answers: Seq<i32>) -> bool {
    &&& answers.len() <= plan.len()
    &&& answers.len() > 0 ==> all_accepted(answers.drop_last())
}

/// The call to issue next, once the service gave `answers` to the calls of
/// `plan` issued so far: the following call of the plan, until one is
/// rejected.
pub open spec fn next_call(plan: Seq<CallModel>, answers: Seq<i32>) -> Option<CallModel> {
    if all_accepted(answers) && answers.len() < plan.len() {
        Some(plan[answers.len() as int])
    } else {
        None
    }
}

/// How the protocol ended, once the service gave `answers`: the rejection of
/// the step that was refused, or success once every call was accepted.
pub open spec fn plan_outcome(plan: Seq<CallModel>, answers: Seq<i32>) -> Option<
    Result<(), SimConnectError>,
> {
    if rejected(answers) {
        Some(
            Err(
                SimConnectError::NativeCallRejected(
                    plan[answers.len() - 1].step(),
                    answers.last(),
                ),
            ),
        )
    } else if answers.len() == plan.len() {
        Some(Ok(()))
    } else {
        None
    }
}

/// An ordered protocol of native calls: each call is issued only once the one
/// before it was accepted, and the first rejection ends the protocol.
pub struct CallSequence {
    calls: Vec<NativeCall>,
    issued: usize,
    rejection: Option<(NativeStep, i32)>,
    answers: Ghost<Seq<i32>>,
}

impl CallSequence {
    /// The calls of the protocol, in order.
    pub closed spec fn plan(&self) -> Seq<CallModel> {
        self.calls@.map_values(|c: NativeCall| c@)
    }

    /// The statuses that the service gave to the calls issued so far.
    pub closed spec fn answers(&self) -> Seq<i32> {
        self.answers@
    }

    /// The protocol's bookkeeping agrees with the answers it was given.
    pub closed spec fn wf(&self) -> bool {
        &&& reachable(self.plan(), self.answers())
        &&& self.issued == self.answers().len()
        &&& self.rejection == if rejected(self.answers()) {
            Some((self.plan()[self.issued - 1].step(), self.answers().last()))
        } else {
            None::<(NativeStep, i32)>
        }
    }

    proof fn lemma_running(&self)
        requires
            self.wf(),
        ensures
            self.rejection is None <==> all_accepted(self.answers()),
    {
        let a = self.answers();
        if a.len() > 0 {
            assert forall|i: int| 0 <= i < a.len() - 1 implies is_success(a[i]) by {
                assert(a.drop_last()[i] == a[i]);
            }
            assert(all_accepted(a) ==> is_success(a[a.len() - 1]));
        }
    }

    /// A protocol that issues `calls` in order; none is issued yet.
    pub fn new(calls: Vec<NativeCall>) -> (r: CallSequence)
        ensures
            r.wf(),
            r.plan() == calls@.map_values(|c: NativeCall| c@),
            r.answers() == Seq::<i32>::empty(),
    {
        CallSequence { calls, issued: 0, rejection: None, answers: Ghost(Seq::empty()) }
    }

    /// The call to issue now, if the protocol is still running.
    pub fn pending(&self) -> (r: Option<&NativeCall>)
        requires
            self.wf(),
        ensures
            r is Some <==> next_call(self.plan(), self.answers()) is Some,
            r matches Some(c) ==> next_call(self.plan(), self.answers()) == Some(c@),
    {
        if self.rejection.is_none() && self.issued < self.calls.len() {
            proof {
                self.lemma_running();
            }
            Some(&self.calls[self.issued])
        } else {
            None
        }
    }

    /// Records the status that the service gave to the pending call; where no
    /// call is pending, nothing changes.
    pub fn report(&mut self, status: i32)
        requires
            old(self).wf(),
        ensures
            final(self).wf(),
            final(self).plan() == old(self).plan(),
            final(self).answers() == if next_call(old(self).plan(), old(self).answers()) is Some {
                old(self).answers().push(status)
            } else {
                old(self).answers()
            },
    {
        proof {
            self.lemma_running();
        }
        if self.rejection.is_none() && self.issued < self.calls.len() {
            let ghost a = self.answers@;
            let step = self.calls[self.issued].step();
            self.issued = self.issued + 1;
            self.answers = Ghost(self.answers@.push(status));
            if status != 0 {
                self.rejection = Some((step, status));
            }
            assert(self.answers@.drop_last() =~= a);
            assert(self.plan()[self.issued - 1] == self.calls@[self.issued - 1]@);
        }
    }

    /// How the protocol ended, or `None` while a call is still to be issued.
    pub fn outcome(&self) -> (r: Option<Result<(), SimConnectError>>)
        requires
            self.wf(),
        ensures
            r == plan_outcome(self.plan(), self.answers()),
    {
        match self.rejection {
            Some((step, status)) => Some(Err(SimConnectError::NativeCallRejected(step, status))),
            None => {
                if self.issued == self.calls.len() {
                    Some(Ok(()))
                } else {
                    None
                }
            },
        }
    }
}

} // verus!
