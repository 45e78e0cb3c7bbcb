//! The admin/ownership manager: one-time bootstrap and the two-step
//! admin handover.

use vstd::prelude::*;

use crate::events::{new_admin_event, new_pending_admin_event, BridgeEvent};
use crate::state::{spec_authorized, authorized_as, Address, BridgeError, BridgeState, BridgeView};

verus! {

/// The outcome of `initialize`: the result handed back and the state
/// after the call.
pub open spec fn initialize_spec(v: BridgeView, auth: Seq<Address>, admin: Address) -> (Result<
    (),
    BridgeError,
>, BridgeView) {
    if !v.admin.is_zero() {
        (Err(BridgeError::AlreadyInitialized), v)
    } else if !spec_authorized(auth, admin) {
        (Err(BridgeError::NotAuthorized), v)
    } else {
        (
            Ok(()),
            BridgeView {
                admin,
                pending_admin: v.pending_admin,
                names: v.names,
                pairs: v.pairs,
            },
        )
    }
}

/// One-time bootstrap: sets the admin, which must be unset beforehand,
/// and only when the invocation is witnessed as the new admin itself.
pub fn initialize(state: &mut BridgeState, auth: &Vec<Address>, admin: Address) -> (r: Result<
    (),
    BridgeError,
>)
    requires
        old(state)@.wf(),
    ensures
        final(state)@.wf(),
        r == initialize_spec(old(state)@, auth@, admin).0,
        final(state)@ == initialize_spec(old(state)@, auth@, admin).1,
{
    if !state.admin.is_zero() {
        return Err(BridgeError::AlreadyInitialized);
    }
    if !authorized_as(auth, admin) {
        return Err(BridgeError::NotAuthorized);
    }
    state.admin = admin;
    Ok(())
}

/// The current admin; the zero address while unset.
pub fn get_admin(state: &BridgeState) -> (r: Address)
    ensures
        r == state@.admin,
{
    state.admin
}

/// The admin change in progress; the zero address while none is.
pub fn get_pending_admin(state: &BridgeState) -> (r: Address)
    ensures
        r == state@.pending_admin,
{
    state.pending_admin
}

/// The outcome of `set_pending_admin`.
pub open spec fn set_pending_admin_spec(
    v: BridgeView,
    auth: Seq<Address>,
    new_admin: Address,
) -> (Result<BridgeEvent, BridgeError>, BridgeView) {
    if new_admin.is_zero() {
        (Err(BridgeError::ZeroAddressNotAllowed), v)
    } else if !spec_authorized(auth, v.admin) {
        (Err(BridgeError::NotAuthorized), v)
    } else {
        (
            Ok(BridgeEvent::PendingAdmin { new_pending_admin: new_admin }),
            BridgeView {
                admin: v.admin,
                pending_admin: new_admin,
                names: v.names,
                pairs: v.pairs,
            },
        )
    }
}

/// First half of the handover: the current admin names a non-zero
/// successor.  Repeatable; each call overwrites any prior pending value.
pub fn set_pending_admin(state: &mut BridgeState, auth: &Vec<Address>, new_admin: Address) -> (r:
    Result<BridgeEvent, BridgeError>)
    requires
        old(state)@.wf(),
    ensures
        final(state)@.wf(),
        r == set_pending_admin_spec(old(state)@, auth@, new_admin).0,
        final(state)@ == set_pending_admin_spec(old(state)@, auth@, new_admin).1,
{
    if new_admin.is_zero() {
        return Err(BridgeError::ZeroAddressNotAllowed);
    }
    if !authorized_as(auth, state.admin) {
        return Err(BridgeError::NotAuthorized);
    }
    state.pending_admin = new_admin;
    Ok(new_pending_admin_event(new_admin))
}

/// The outcome of `accept_admin`.
pub open spec fn accept_admin_spec(v: BridgeView, auth: Seq<Address>) -> (Result<
    BridgeEvent,
    BridgeError,
>, BridgeView) {
    if !spec_authorized(auth, v.pending_admin) {
        (Err(BridgeError::NotAuthorized), v)
    } else {
        (
            Ok(BridgeEvent::NewAdmin { old_admin: v.admin, new_admin: v.pending_admin }),
            BridgeView {
                admin: v.pending_admin,
                pending_admin: Address { value: 0 },
                names: v.names,
                pairs: v.pairs,
            },
        )
    }
}

/// Second half of the handover: the stored pending admin proves control,
/// atomically becomes the admin, and the pending slot is cleared.  While
/// no pending admin is stored the slot reads as zero, which no witness
/// covers, so the call fails.
pub fn accept_admin(state: &mut BridgeState, auth: &Vec<Address>) -> (r: Result<
    BridgeEvent,
    BridgeError,
>)
    requires
        old(state)@.wf(),
    ensures
        final(state)@.wf(),
        r == accept_admin_spec(old(state)@, auth@).0,
        final(state)@ == accept_admin_spec(old(state)@, auth@).1,
{
    if !authorized_as(auth, state.pending_admin) {
        return Err(BridgeError::NotAuthorized);
    }
    let old_admin = state.admin;
    let pending = state.pending_admin;
    state.admin = pending;
    state.pending_admin = Address::zero();
    Ok(new_admin_event(old_admin, pending))
}

/// Admin bootstrap happens exactly once: after a successful
/// `initialize`, every later `initialize` fails with
/// `AlreadyInitialized`, whoever calls it and whatever it passes.
pub proof fn lemma_initialize_at_most_once(
    v: BridgeView,
    auth1: Seq<Address>,
    admin1: Address,
    auth2: Seq<Address>,
    admin2: Address,
)
    requires
        initialize_spec(v, auth1, admin1).0 is Ok,
    ensures
        initialize_spec(initialize_spec(v, auth1, admin1).1, auth2, admin2).0 == Err::<
            (),
            BridgeError,
        >(BridgeError::AlreadyInitialized),
{
}

/// Two-step handover: after `set_pending_admin(b)` succeeds,
/// `accept_admin` succeeds exactly when the invocation is witnessed as
/// that same `b`; it then makes `b` the admin and clears the pending
/// slot.
pub proof fn lemma_two_step_handover(
    v: BridgeView,
    auth1: Seq<Address>,
    new_admin: Address,
    auth2: Seq<Address>,
)
    requires
        set_pending_admin_spec(v, auth1, new_admin).0 is Ok,
    ensures
        ({
            let v1 = set_pending_admin_spec(v, auth1, new_admin).1;
            let (r2, v2) = accept_admin_spec(v1, auth2);
            &&& r2 is Ok <==> spec_authorized(auth2, new_admin)
            &&& r2 is Ok ==> v2.admin == new_admin && v2.pending_admin.is_zero()
        }),
{
}

} // verus!
