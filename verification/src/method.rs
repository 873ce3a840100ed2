//! The method trampoline: registering host closures as guest-callable
//! methods, and the dispatch protocol run on each guest invocation.
//!
//! Registration records the method durably (outside the arena). On each
//! guest invocation the dispatch protocol begins a fresh context for the
//! call, installs the call's arguments, and — once the host closure has
//! run — ends the context, restores the previous arguments, and marshals
//! the closure's end into the runtime's return protocol: a returned value
//! becomes the call's return value, a guest-level error is installed as
//! the runtime's outstanding exception, and a host fault goes through the
//! outbound crossing into the innermost capture slot, producing no return
//! value. The closure itself is host code and runs between the two
//! halves; the protocol is verified for everything it can do.

use vstd::prelude::*;

use crate::boundary::{enter_rel, exit_rel, into_rust, BoundaryOutcome, OutboundAction};
use crate::object::{valid_value, MrbClass, MrbException, MrbPtr, MrbValue};
use crate::state::{is_class, is_exc, HostFault, MethodEntry, MrbState};
use crate::{into_mruby_enter, into_mruby_exit, Context, MrbResult};

verus! {

/// What a host closure invoked as a method body did.
pub enum HostStep {
    /// It returned a value.
    Return(MrbValue),
    /// It raised a guest-level error.
    Raise(MrbException),
    /// It faulted.
    Fault(HostFault),
}

/// What the dispatch protocol tells the runtime's call machinery to do.
pub enum DispatchAction {
    /// Install this value as the call's return value.
    SetReturn(MrbValue),
    /// The guest-level error was installed as the runtime's outstanding
    /// exception; there is no return value.
    Raised,
    /// The fault was captured into the innermost slot; there is no
    /// return value, and the runtime unwinds out to the inbound crossing.
    FaultCaptured,
    /// Contract violation: a fault with no capture slot installed. The
    /// caller must terminate the process.
    Abort,
}

/// What the finalizer thunk tells the native layer when the runtime's GC
/// reclaims a durable closure holder.
pub enum FinalizeAction {
    /// The holder was dropped; nothing more to do.
    Done,
    /// The drop faulted: a contract violation — destructors must not
    /// fault, and there is no enclosing inbound crossing to carry the
    /// fault — so the process must terminate.
    Abort,
}

/// The per-invocation state the dispatch protocol carries from its first
/// half to its second.
pub struct DispatchFrame {
    /// The fresh context begun for this call.
    pub ctx: Context,
    /// The argument list of the enclosing call, restored afterwards.
    pub saved_args: Vec<MrbValue>,
    /// The call's receiver, handed to the closure.
    pub receiver: MrbValue,
}

/// Registering a method appends one entry to the session's method table,
/// with a fresh token naming the durable closure holder, and changes
/// nothing else.
pub open spec fn define_method_rel(
    pre: MrbState,
    post: MrbState,
    class: MrbClass,
    name: Seq<char>,
    r: MrbResult<()>,
) -> bool {
    &&& post.methods@.len() == pre.methods@.len() + 1
    &&& forall|i: int| 0 <= i < pre.methods@.len() ==> post.methods@[i] == pre.methods@[i]
    &&& post.methods@.last().class_id == class.0.id
    &&& post.methods@.last().name@ == name
    &&& post.methods@.last().token == pre.methods@.len()
    &&& post.heap@ == pre.heap@
    &&& post.arena@ == pre.arena@
    &&& post.exc is None
    &&& post.slots@ == pre.slots@
    &&& post.args@ == pre.args@
    &&& r == Ok::<(), MrbException>(())
}

/// The dispatch protocol's second half: the call's context is ended, the
/// enclosing call's arguments are restored, and the closure's end is
/// marshalled into the runtime's return protocol — a fault through the
/// outbound crossing, never through the guest exception channel.
pub open spec fn dispatch_rel(
    pre: MrbState,
    post: MrbState,
    frame: DispatchFrame,
    step: HostStep,
    act: DispatchAction,
) -> bool {
    &&& post.arena@ == pre.arena@.subrange(0, frame.ctx.checkpoint as int)
    &&& post.args@ == frame.saved_args@
    &&& post.heap@ == pre.heap@
    &&& post.methods@ == pre.methods@
    &&& match step {
        HostStep::Return(v) => act == DispatchAction::SetReturn(v) && post.exc == pre.exc
            && post.slots@ == pre.slots@,
        HostStep::Raise(e) => act == DispatchAction::Raised && post.exc == Some(e.0.id)
            && post.slots@ == pre.slots@,
        HostStep::Fault(f) => if pre.slots@.len() == 0 {
            act == DispatchAction::Abort && post.exc == pre.exc && post.slots@ == pre.slots@
        } else {
            act == DispatchAction::FaultCaptured && post.exc == pre.exc && post.slots@
                == pre.slots@.update(pre.slots@.len() - 1, Some(f))
        },
    }
}

/// Copy a list of values.
fn copy_values(src: &Vec<MrbValue>) -> (r: Vec<MrbValue>)
    ensures
        r@ == src@,
{
    let mut out: Vec<MrbValue> = Vec::new();
    let mut i: usize = 0;
    while i < src.len()
        invariant
            i <= src@.len(),
            out@.len() == i as nat,
            forall|j: int| 0 <= j < i ==> out@[j] == src@[j],
        decreases src@.len() - i,
    {
        out.push(src[i]);
        i += 1;
    }
    proof {
        assert(out@ =~= src@);
    }
    out
}

impl Context {
    /// Register a host method under `name` on `class`: one entry in the
    /// session's method table, with a fresh token for the durable closure
    /// holder handed to the native registration interface.
    pub fn define_method(&self, state: &mut MrbState, class: MrbClass, name: &str) -> (r: MrbResult<
        (),
    >)
        requires
            old(state).wf(),
            old(state).exc is None,
            class.0.id < old(state).heap@.len(),
            is_class(old(state).heap@[class.0.id as int]),
        ensures
            final (state).wf(),
            define_method_rel(*old(state), *final (state), class, name@, r),
    {
        into_mruby_enter(state);
        let token = state.methods.len();
        state.methods.push(
            MethodEntry { class_id: class.0.id, name: String::from_str(name), token },
        );
        let out = into_mruby_exit(state);
        proof {
            assert(state.slots@ =~= old(state).slots@);
        }
        match out {
            BoundaryOutcome::Clean => Ok(()),
            BoundaryOutcome::GuestException(_) => unreached(),
            BoundaryOutcome::HostFault(_) => unreached(),
        }
    }
}

/// Begin dispatch of a guest invocation: a fresh context brands the
/// call, and the call's arguments replace the enclosing call's, which
/// are saved in the frame for restoration.
pub fn dispatch_begin(state: &mut MrbState, receiver: MrbValue, args: Vec<MrbValue>) -> (frame:
    DispatchFrame)
    requires
        old(state).wf(),
        valid_value(old(state).heap@, receiver),
        forall|i: int| 0 <= i < args@.len() ==> valid_value(old(state).heap@, #[trigger] args@[i]),
    ensures
        final (state).wf(),
        frame.ctx.checkpoint == old(state).arena@.len(),
        frame.receiver == receiver,
        frame.saved_args@ == old(state).args@,
        final (state).args@ == args@,
        final (state).heap@ == old(state).heap@,
        final (state).arena@ == old(state).arena@,
        final (state).exc == old(state).exc,
        final (state).slots@ == old(state).slots@,
        final (state).methods@ == old(state).methods@,
{
    let saved_args = copy_values(&state.args);
    let ctx = Context { checkpoint: state.arena.len() };
    state.args = args;
    DispatchFrame { ctx, saved_args, receiver }
}

/// Finish dispatch: end the call's context, restore the enclosing call's
/// arguments, and marshal what the closure did into the runtime's return
/// protocol. A fault goes through the outbound crossing into the
/// innermost capture slot; with no slot installed the action demands an
/// abort.
pub fn dispatch_finish(state: &mut MrbState, frame: DispatchFrame, step: HostStep) -> (act:
    DispatchAction)
    requires
        old(state).wf(),
        old(state).exc is None,
        frame.ctx.checkpoint <= old(state).arena@.len(),
        forall|i: int|
            0 <= i < frame.saved_args@.len() ==> valid_value(
                old(state).heap@,
                #[trigger] frame.saved_args@[i],
            ),
        step matches HostStep::Raise(e) ==> e.0.id < old(state).heap@.len() && is_exc(
            old(state).heap@[e.0.id as int],
        ),
    ensures
        final (state).wf(),
        dispatch_rel(*old(state), *final (state), frame, step, act),
{
    state.arena.truncate(frame.ctx.checkpoint);
    state.args = frame.saved_args;
    proof {
        assert(state.arena@ =~= old(state).arena@.subrange(0, frame.ctx.checkpoint as int));
    }
    match step {
        HostStep::Return(v) => DispatchAction::SetReturn(v),
        HostStep::Raise(e) => {
            state.exc = Some(e.0.id);
            DispatchAction::Raised
        },
        HostStep::Fault(f) => {
            let r = into_rust(state, Some(f));
            match r {
                OutboundAction::Completed => unreached(),
                OutboundAction::Captured => DispatchAction::FaultCaptured,
                OutboundAction::AbortRequired => DispatchAction::Abort,
            }
        },
    }
}

/// The finalizer protocol: when the runtime's GC reclaims a durable
/// closure holder, the holder is dropped; a fault during that drop is a
/// contract violation — there is no enclosing inbound crossing to carry
/// it — and the process must terminate rather than continue.
pub fn finalize_method(faulted: bool) -> (r: FinalizeAction)
    ensures
        r == if faulted {
            FinalizeAction::Abort
        } else {
            FinalizeAction::Done
        },
{
    if faulted {
        FinalizeAction::Abort
    } else {
        FinalizeAction::Done
    }
}

/// Law: a method whose closure returns the call's receiver hands exactly
/// that receiver back to the runtime as the call's return value — the
/// identity-preserving round trip — and raises nothing.
pub proof fn lemma_dispatch_returns_receiver(
    pre: MrbState,
    post: MrbState,
    frame: DispatchFrame,
    act: DispatchAction,
)
    requires
        dispatch_rel(pre, post, frame, HostStep::Return(frame.receiver), act),
    ensures
        act == DispatchAction::SetReturn(frame.receiver),
        post.exc == pre.exc,
        post.slots@ == pre.slots@,
{
}

/// Law: a closure that raises a guest-level error surfaces it to the
/// caller of the enclosing inbound crossing as a typed error equal to
/// the raised exception; the exception slot is left clear, the slot
/// chain is restored, and no abort is demanded.
pub proof fn lemma_method_raise_surfaces(
    s0: MrbState,
    s1: MrbState,
    s2: MrbState,
    s3: MrbState,
    frame: DispatchFrame,
    e: MrbException,
    act: DispatchAction,
    out: BoundaryOutcome,
)
    requires
        s0.exc is None,
        enter_rel(s0, s1),
        dispatch_rel(s1, s2, frame, HostStep::Raise(e), act),
        exit_rel(s2, s3, out),
    ensures
        act == DispatchAction::Raised,
        out == BoundaryOutcome::GuestException(e),
        s3.exc is None,
        s3.slots@ == s0.slots@,
{
    assert(s2.slots@.last() is None);
    assert(s3.slots@ =~= s0.slots@);
    assert(MrbException(MrbPtr { id: e.0.id }) == e);
}

/// Law: a closure that faults under an inbound crossing is captured —
/// never an abort, because the crossing installed a slot — and the fault
/// comes back out of the crossing as a host fault: the guest-visible
/// exception channel never carries it, so no guest rescue construct can
/// observe or swallow it.
pub proof fn lemma_method_fault_not_rescuable(
    s0: MrbState,
    s1: MrbState,
    s2: MrbState,
    s3: MrbState,
    frame: DispatchFrame,
    f: HostFault,
    act: DispatchAction,
    out: BoundaryOutcome,
)
    requires
        enter_rel(s0, s1),
        dispatch_rel(s1, s2, frame, HostStep::Fault(f), act),
        exit_rel(s2, s3, out),
    ensures
        act == DispatchAction::FaultCaptured,
        out == BoundaryOutcome::HostFault(f),
        s3.exc == s0.exc,
        s3.slots@ == s0.slots@,
{
    assert(s2.slots@.last() == Some(f));
    assert(s3.slots@ =~= s0.slots@);
}

} // verus!
