//! The unwind boundary: the two crossing primitives and the fault-carrier
//! protocol between them.
//!
//! An inbound crossing (host calls into the runtime) installs a fresh
//! fault-capture slot before the call and, after it returns, removes the
//! slot, re-raises any host fault captured in it, and otherwise translates
//! an outstanding guest exception into a typed error. An outbound crossing
//! (the runtime calls back into a host closure) writes a host fault into
//! the innermost installed slot instead of letting it unwind through the
//! runtime's native frames; with no slot installed that is a contract
//! violation and the process must abort. The two channels never mix: a
//! host fault is invisible to the guest's exception machinery, and a guest
//! exception flows as an ordinary typed result.

use vstd::prelude::*;

use crate::object::{MrbException, MrbPtr};
use crate::state::{HostFault, MrbState};

verus! {

/// What an inbound crossing found when control returned from the runtime.
pub enum BoundaryOutcome {
    /// The call completed with no outstanding exception and no captured
    /// fault.
    Clean,
    /// Guest code raised: the exception, taken out of the runtime's slot
    /// and translated to a typed value.
    GuestException(MrbException),
    /// A host closure invoked from inside the call faulted: the captured
    /// fault, to be re-raised in the host's own control flow.
    HostFault(HostFault),
}

/// What the outbound crossing decided to do with the host closure's end.
pub enum OutboundAction {
    /// The closure completed (normally or with a guest-level error);
    /// nothing to capture.
    Completed,
    /// The closure faulted and the fault was written into the innermost
    /// installed capture slot.
    Captured,
    /// The closure faulted with no capture slot installed: a contract
    /// violation — the caller must terminate the process rather than
    /// continue in an unsound state.
    AbortRequired,
}

/// The inbound crossing's first half: a fresh, empty capture slot is
/// installed, preserving whatever was installed before; nothing else
/// changes.
pub open spec fn enter_rel(pre: MrbState, post: MrbState) -> bool {
    &&& post.slots@ == pre.slots@.push(None)
    &&& pre.same_but_slots(post)
}

/// The inbound crossing's second half: the innermost slot is removed; a
/// fault captured in it takes precedence and leaves the exception slot
/// untouched; otherwise an outstanding guest exception is taken and
/// translated; otherwise the call was clean.
pub open spec fn exit_rel(pre: MrbState, post: MrbState, r: BoundaryOutcome) -> bool {
    &&& pre.slots@.len() >= 1
    &&& post.slots@ == pre.slots@.drop_last()
    &&& pre.same_but_slots_exc(post)
    &&& match pre.slots@.last() {
        Some(f) => r == BoundaryOutcome::HostFault(f) && post.exc == pre.exc,
        None => match pre.exc {
            Some(id) => r == BoundaryOutcome::GuestException(MrbException(MrbPtr { id }))
                && post.exc is None,
            None => r == BoundaryOutcome::Clean && post.exc is None,
        },
    }
}

/// The outbound crossing: a completed closure changes nothing; a fault is
/// written into the innermost installed slot; a fault with no slot
/// installed demands an abort and changes nothing.
pub open spec fn outbound_rel(
    pre: MrbState,
    post: MrbState,
    fault: Option<HostFault>,
    r: OutboundAction,
) -> bool {
    match fault {
        None => r == OutboundAction::Completed && post.slots@ == pre.slots@
            && pre.same_but_slots(post),
        Some(f) => if pre.slots@.len() == 0 {
            r == OutboundAction::AbortRequired && post.slots@ == pre.slots@
                && pre.same_but_slots(post)
        } else {
            r == OutboundAction::Captured && post.slots@ == pre.slots@.update(
                pre.slots@.len() - 1,
                Some(f),
            ) && pre.same_but_slots(post)
        },
    }
}

/// Install a fresh fault-capture slot for a call into the runtime,
/// preserving the previously installed chain.
pub fn into_mruby_enter(state: &mut MrbState)
    ensures
        enter_rel(*old(state), *final (state)),
{
    state.slots.push(None);
}

/// Return from a call into the runtime: remove the slot installed by
/// `into_mruby_enter` and classify what happened, fault first, guest
/// exception second.
pub fn into_mruby_exit(state: &mut MrbState) -> (r: BoundaryOutcome)
    requires
        old(state).slots@.len() >= 1,
    ensures
        exit_rel(*old(state), *final (state), r),
{
    let slot = state.slots.pop().unwrap();
    match slot {
        Some(f) => BoundaryOutcome::HostFault(f),
        None => match state.exc {
            Some(id) => {
                state.exc = None;
                BoundaryOutcome::GuestException(MrbException(MrbPtr { id }))
            },
            None => BoundaryOutcome::Clean,
        },
    }
}

/// The outbound crossing of a call from the runtime into a host closure:
/// `fault` is what the closure did — `None` when it completed (normally
/// or with a guest-level error), `Some` when it faulted. A fault goes
/// into the innermost installed capture slot; with none installed the
/// caller is told to terminate the process.
pub fn into_rust(state: &mut MrbState, fault: Option<HostFault>) -> (r: OutboundAction)
    ensures
        outbound_rel(*old(state), *final (state), fault, r),
{
    match fault {
        None => OutboundAction::Completed,
        Some(f) => {
            let n = state.slots.len();
            if n == 0 {
                OutboundAction::AbortRequired
            } else {
                state.slots.set(n - 1, Some(f));
                OutboundAction::Captured
            }
        },
    }
}

/// Law: fault transparency. A host fault raised by a closure running
/// under an inbound crossing is captured — never an abort, because the
/// crossing installed a slot — and the crossing returns it as a fault:
/// the guest-visible exception channel never carries it, and the slot
/// chain is restored to what it was before the crossing.
pub proof fn lemma_host_fault_transparency(
    s0: MrbState,
    s1: MrbState,
    s2: MrbState,
    s3: MrbState,
    f: HostFault,
    act: OutboundAction,
    out: BoundaryOutcome,
)
    requires
        enter_rel(s0, s1),
        outbound_rel(s1, s2, Some(f), act),
        exit_rel(s2, s3, out),
    ensures
        act == OutboundAction::Captured,
        out == BoundaryOutcome::HostFault(f),
        s3.exc == s0.exc,
        s3.slots@ == s0.slots@,
        s3.heap@ == s0.heap@,
        s3.arena@ == s0.arena@,
{
    assert(s2.slots@.last() == Some(f));
    assert(s3.slots@ =~= s0.slots@);
}

/// Law: a guest exception raised while a slot chain is in place flows out
/// of the inbound crossing as a typed error equal to the raised
/// exception, the exception slot is left clear, and the slot chain is
/// restored — the host observes an ordinary error value, never a fault
/// and never an abort.
pub proof fn lemma_guest_exception_translated(
    s0: MrbState,
    s1: MrbState,
    s2: MrbState,
    s3: MrbState,
    id: usize,
    out: BoundaryOutcome,
)
    requires
        enter_rel(s0, s1),
        s2.exc == Some(id),
        s2.slots@ == s1.slots@,
        exit_rel(s2, s3, out),
    ensures
        out == BoundaryOutcome::GuestException(MrbException(MrbPtr { id })),
        s3.exc is None,
        s3.slots@ == s0.slots@,
{
    assert(s2.slots@.last() is None);
    assert(s3.slots@ =~= s0.slots@);
}

} // verus!
