use vstd::prelude::*;

use crate::descriptors::FacilityType;
use crate::error::{check_status, is_success, status_result, NativeStep, SimConnectError};
use crate::native::{CallModel, CallSequence, NativeCall};
use crate::request_ids::{allocation, SimConnect};

verus! {

impl SimConnect {
    /// Asks once for every facility of `facility_type` in the facilities
    /// cache. The type's category first takes a request id, which the call
    /// carries; where the category already holds one, the request is refused
    /// with `ObjectAlreadyRegistered` and no call is to be issued. The call's
    /// answer is settled by `facilities_request_answered`.
    pub fn request_facilities_list(&mut self, facility_type: FacilityType) -> (r: Result<
        CallSequence,
        SimConnectError,
    >)
        requires
            old(self).wf(),
            old(self)@.len() < u32::MAX,
        ensures
            final(self).wf(),
            r is Err <==> old(self)@.contains_key(facility_type.category_key()),
            r matches Err(e) ==> allocation(
                old(self)@,
                facility_type.category_key(),
                Err(e),
                final(self)@,
            ),
            r matches Ok(s) ==> {
                &&& allocation(
                    old(self)@,
                    facility_type.category_key(),
                    Ok(final(self)@[facility_type.category_key()]),
                    final(self)@,
                )
                &&& s.wf()
                &&& s.plan() == seq![
                    CallModel::RequestFacilitiesList {
                        facility_type: facility_type.spec_code(),
                        request_id: final(self)@[facility_type.category_key()],
                    },
                ]
                &&& s.answers() == Seq::<i32>::empty()
            },
    {
        let request_id = self.new_request_id(facility_type.to_type_name())?;
        let mut calls: Vec<NativeCall> = Vec::new();
        calls.push(NativeCall::RequestFacilitiesList { facility_type: facility_type.code(), request_id });
        let s = CallSequence::new(calls);
        assert(s.plan() =~= seq![
            CallModel::RequestFacilitiesList { facility_type: facility_type.spec_code(), request_id },
        ]);
        Ok(s)
    }

    /// Subscribes to the facilities of `facility_type`: a full list from the
    /// cache, then each addition to it (removals are not notified). The
    /// type's category first takes a request id, which the call carries;
    /// where the category already holds one, the subscription is refused with
    /// `ObjectAlreadyRegistered` and no call is to be issued. The call's
    /// answer is settled by `facilities_request_answered`.
    pub fn subscribe_to_facilities(&mut self, facility_type: FacilityType) -> (r: Result<
        CallSequence,
        SimConnectError,
    >)
        requires
            old(self).wf(),
            old(self)@.len() < u32::MAX,
        ensures
            final(self).wf(),
            r is Err <==> old(self)@.contains_key(facility_type.category_key()),
            r matches Err(e) ==> allocation(
                old(self)@,
                facility_type.category_key(),
                Err(e),
                final(self)@,
            ),
            r matches Ok(s) ==> {
                &&& allocation(
                    old(self)@,
                    facility_type.category_key(),
                    Ok(final(self)@[facility_type.category_key()]),
                    final(self)@,
                )
                &&& s.wf()
                &&& s.plan() == seq![
                    CallModel::SubscribeToFacilities {
                        facility_type: facility_type.spec_code(),
                        request_id: final(self)@[facility_type.category_key()],
                    },
                ]
                &&& s.answers() == Seq::<i32>::empty()
            },
    {
        let request_id = self.new_request_id(facility_type.to_type_name())?;
        let mut calls: Vec<NativeCall> = Vec::new();
        calls.push(NativeCall::SubscribeToFacilities { facility_type: facility_type.code(), request_id });
        let s = CallSequence::new(calls);
        assert(s.plan() =~= seq![
            CallModel::SubscribeToFacilities { facility_type: facility_type.spec_code(), request_id },
        ]);
        Ok(s)
    }

    /// Settles a facility list request or subscription of `facility_type`
    /// (`step`), once the native service answered `status` to its call: where
    /// the call was rejected, the request id that the category took for it is
    /// released, so that no local state outlives the failed call, and the
    /// rejection is returned; where it was accepted, nothing changes.
    pub fn facilities_request_answered(
        &mut self,
        facility_type: FacilityType,
        step: NativeStep,
        status: i32,
    ) -> (r: Result<(), SimConnectError>)
        requires
            old(self).wf(),
        ensures
            final(self).wf(),
            r == status_result(step, status),
            is_success(status) ==> final(self)@ == old(self)@,
            !is_success(status) ==> final(self)@ == old(self)@.remove(facility_type.category_key()),
    {
        let r = check_status(step, status);
        if r.is_err() {
            let key = facility_type.to_type_name();
            self.unregister_request_id_by_type_name(key.as_str());
        }
        r
    }

    /// The native call that ends the facility notifications of
    /// `facility_type`; its status is then settled by
    /// `unsubscribe_to_facilities`.
    pub fn unsubscribe_to_facilities_call(&self, facility_type: FacilityType) -> (r: NativeCall)
        ensures
            r@ == (CallModel::UnsubscribeToFacilities { facility_type: facility_type.spec_code() }),
    {
        NativeCall::UnsubscribeToFacilities { facility_type: facility_type.code() }
    }

    /// Settles the end of the facility notifications of `facility_type`, once
    /// the native service answered `status` to its unsubscribe call: where the
    /// call was accepted the category's request id is released; where it was
    /// rejected the id stays held and the rejection is returned.
    pub fn unsubscribe_to_facilities(&mut self, facility_type: FacilityType, status: i32) -> (r:
        Result<(), SimConnectError>)
        requires
            old(self).wf(),
        ensures
            final(self).wf(),
            r == status_result(NativeStep::UnsubscribeToFacilities, status),
            is_success(status) ==> final(self)@ == old(self)@.remove(facility_type.category_key()),
            is_success(status) ==> !final(self)@.contains_key(facility_type.category_key()),
            !is_success(status) ==> final(self)@ == old(self)@,
            !is_success(status) && old(self)@.contains_key(facility_type.category_key())
                ==> final(self)@.contains_key(facility_type.category_key()),
    {
        let key = facility_type.to_type_name();
        check_status(NativeStep::UnsubscribeToFacilities, status)?;
        self.unregister_request_id_by_type_name(key.as_str());
        Ok(())
    }
}

/// A facility list request or subscription that passed the guard, and whose
/// native call was then rejected, leaves the live ids as they were before it.
pub proof fn lemma_rejected_request_leaves_no_state(
    before: Map<Seq<char>, u32>,
    allocated: Map<Seq<char>, u32>,
    after: Map<Seq<char>, u32>,
    category: Seq<char>,
    id: u32,
    status: i32,
)
    requires
        allocation(before, category, Ok(id), allocated),
        !is_success(status),
        after == allocated.remove(category),
    ensures
        after == before,
{
    assert(after =~= before);
}

} // verus!
