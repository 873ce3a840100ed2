//! A verified model of a host-side safety boundary around an embedded,
//! garbage-collected scripting runtime.
//!
//! The library models the state the boundary protocol reads and writes — the
//! GC-retention arena, the outstanding-exception slot, the stack of installed
//! fault-capture slots, the heap objects the host can observe — and verifies
//! the protocol itself: scoped contexts restore arena checkpoints in LIFO
//! order, guest exceptions are translated to typed errors at every inbound
//! crossing, and host faults are carried across the runtime's native frames
//! without ever entering the guest-visible exception channel.
//!
//! The native calls themselves (opening and closing the interpreter,
//! evaluating source, the C trampoline glue) are outside this library; the
//! functions here take what the native side did as explicit arguments and are
//! verified for every possible answer.

use vstd::prelude::*;

pub mod boundary;
pub mod marker;
pub mod method;
pub mod object;
pub mod state;

use crate::boundary::{into_mruby_enter, into_mruby_exit, BoundaryOutcome};
use crate::object::{
    find_key, hash_upsert, inspect_value, lemma_find_key_first, lemma_find_key_none,
    lemma_find_key_not_found, render_value, val_eq, valid_value, values_equal, MrbClass,
    MrbException, MrbPtr, MrbValue,
};
use crate::state::{
    class_id_of, class_name, class_super, exc_class, exc_message, has_class_named, hash_pairs,
    is_class, is_exc, is_hash, is_str, lemma_heap_wf_push, lemma_heap_wf_update_hash, obj_wf,
    str_text, MrbState, ObjData, ROOT_CLASS_ID,
};

verus! {

/// The result of an operation routed through the unwind boundary: either
/// the operation's value, or the guest exception it raised, translated to
/// a typed error.
pub type MrbResult<T> = Result<T, MrbException>;

/// The owner of one live runtime session.
pub struct Mrb {
    pub state: MrbState,
}

/// A scoped arena session: it records the arena checkpoint saved when the
/// unit of work began, and ending it restores the arena to exactly that
/// checkpoint, releasing retention of everything produced since.
pub struct Context {
    pub checkpoint: usize,
}

/// Beginning a context saves the arena checkpoint of the moment and
/// changes nothing.
pub open spec fn context_begin_rel(s: MrbState, ctx: Context) -> bool {
    ctx.checkpoint == s.arena@.len()
}

/// Ending a context truncates the arena back to the saved checkpoint and
/// touches nothing else.
pub open spec fn context_end_rel(pre: MrbState, post: MrbState, ctx: Context) -> bool {
    &&& ctx.checkpoint <= pre.arena@.len()
    &&& post.arena@ == pre.arena@.subrange(0, ctx.checkpoint as int)
    &&& pre.same_but_arena(post)
}

/// Nothing observable about the session changed.
pub open spec fn state_unchanged(pre: MrbState, post: MrbState) -> bool {
    &&& post.heap@ == pre.heap@
    &&& post.arena@ == pre.arena@
    &&& post.exc == pre.exc
    &&& post.slots@ == pre.slots@
    &&& post.methods@ == pre.methods@
    &&& post.args@ == pre.args@
}

/// One object was appended to the heap and retained in the arena;
/// everything else but the exception slot is untouched.
pub open spec fn appends_retained(pre: MrbState, post: MrbState) -> bool {
    &&& post.heap@.len() == pre.heap@.len() + 1
    &&& forall|i: int| 0 <= i < pre.heap@.len() ==> post.heap@[i] == pre.heap@[i]
    &&& post.arena@ == pre.arena@.push(pre.heap@.len() as usize)
    &&& post.slots@ == pre.slots@
    &&& post.methods@ == pre.methods@
    &&& post.args@ == pre.args@
}

/// Creating a string object appends it to the heap, retains it, and hands
/// back its handle.
pub open spec fn new_string_rel(
    pre: MrbState,
    post: MrbState,
    text: Seq<char>,
    r: MrbResult<MrbValue>,
) -> bool {
    &&& appends_retained(pre, post)
    &&& is_str(post.heap@.last())
    &&& str_text(post.heap@.last()) == text
    &&& post.exc is None
    &&& r == Ok::<MrbValue, MrbException>(MrbValue::Obj(MrbPtr { id: pre.heap@.len() as usize }))
}

/// Creating a hash appends an empty hash object to the heap, retains it,
/// and hands back its handle.
pub open spec fn new_hash_rel(pre: MrbState, post: MrbState, r: MrbResult<MrbValue>) -> bool {
    &&& appends_retained(pre, post)
    &&& is_hash(post.heap@.last())
    &&& hash_pairs(post.heap@.last()) =~= Seq::<(MrbValue, MrbValue)>::empty()
    &&& post.exc is None
    &&& r == Ok::<MrbValue, MrbException>(MrbValue::Obj(MrbPtr { id: pre.heap@.len() as usize }))
}

/// The text of the guest error raised when a class is redefined under
/// another superclass.
pub open spec fn superclass_mismatch_message(
    name: Seq<char>,
    old_super: Seq<char>,
    new_super: Seq<char>,
) -> Seq<char> {
    "superclass mismatch for Class "@ + name + " ("@ + old_super + " not "@ + new_super + ")"@
}

/// Defining a class: a fresh name appends a retained class object; an
/// existing name with the same superclass hands back the existing class
/// and changes nothing; an existing name with another superclass raises a
/// guest `TypeError` naming both superclasses, and the existing class is
/// untouched.
pub open spec fn define_class_rel(
    pre: MrbState,
    post: MrbState,
    name: Seq<char>,
    superclass: MrbClass,
    r: MrbResult<MrbClass>,
) -> bool {
    if has_class_named(pre.heap@, name) {
        let i = class_id_of(pre.heap@, name);
        if class_super(pre.heap@[i]) == superclass.0.id as int {
            &&& state_unchanged(pre, post)
            &&& post.exc is None
            &&& r == Ok::<MrbClass, MrbException>(MrbClass(MrbPtr { id: i as usize }))
        } else {
            &&& appends_retained(pre, post)
            &&& is_exc(post.heap@.last())
            &&& exc_class(post.heap@.last()) == "TypeError"@
            &&& exc_message(post.heap@.last()) == superclass_mismatch_message(
                name,
                class_name(pre.heap@[class_super(pre.heap@[i])]),
                class_name(pre.heap@[superclass.0.id as int]),
            )
            &&& post.exc is None
            &&& r == Err::<MrbClass, MrbException>(
                MrbException(MrbPtr { id: pre.heap@.len() as usize }),
            )
        }
    } else {
        &&& appends_retained(pre, post)
        &&& is_class(post.heap@.last())
        &&& class_name(post.heap@.last()) == name
        &&& class_super(post.heap@.last()) == superclass.0.id as int
        &&& post.exc is None
        &&& r == Ok::<MrbClass, MrbException>(MrbClass(MrbPtr { id: pre.heap@.len() as usize }))
    }
}

/// What evaluating a chunk of guest source did on the native side: it
/// either came back with a value, or raised — creating an exception
/// object of the named class with the given message.
pub enum EvalOutcome {
    Value(MrbValue),
    Raised { class_name: String, message: String },
}

/// Evaluating source: a returned value passes through unchanged; a raise
/// appends a retained exception object and surfaces it as a typed error,
/// leaving the exception slot clear — never a fault, never an abort.
pub open spec fn load_string_rel(
    pre: MrbState,
    post: MrbState,
    outcome: EvalOutcome,
    r: MrbResult<MrbValue>,
) -> bool {
    match outcome {
        EvalOutcome::Value(v) => {
            &&& state_unchanged(pre, post)
            &&& post.exc is None
            &&& r == Ok::<MrbValue, MrbException>(v)
        },
        EvalOutcome::Raised { class_name: c, message: m } => {
            &&& appends_retained(pre, post)
            &&& is_exc(post.heap@.last())
            &&& exc_class(post.heap@.last()) == c@
            &&& exc_message(post.heap@.last()) == m@
            &&& post.exc is None
            &&& r == Err::<MrbValue, MrbException>(
                MrbException(MrbPtr { id: pre.heap@.len() as usize }),
            )
        },
    }
}

/// Setting a key in a hash: an entry with an equal key keeps its place
/// and gets the new value; a fresh key is appended, preserving insertion
/// order. Nothing else changes.
pub open spec fn hash_set_rel(
    pre: MrbState,
    post: MrbState,
    hash: MrbValue,
    key: MrbValue,
    value: MrbValue,
    r: MrbResult<()>,
) -> bool {
    &&& hash matches MrbValue::Obj(p) && {
        &&& post.heap@.len() == pre.heap@.len()
        &&& forall|i: int| 0 <= i < pre.heap@.len() && i != p.id as int ==> post.heap@[i] == pre.heap@[i]
        &&& is_hash(post.heap@[p.id as int])
        &&& hash_pairs(post.heap@[p.id as int]) == hash_upsert(
            pre.heap@,
            hash_pairs(pre.heap@[p.id as int]),
            key,
            value,
        )
    }
    &&& post.arena@ == pre.arena@
    &&& post.exc is None
    &&& post.slots@ == pre.slots@
    &&& post.methods@ == pre.methods@
    &&& post.args@ == pre.args@
    &&& r == Ok::<(), MrbException>(())
}

/// Look a class up by name.
fn find_class(state: &MrbState, name: &String) -> (r: Option<usize>)
    requires
        state.wf(),
    ensures
        match r {
            Some(i) => i < state.heap@.len() && is_class(state.heap@[i as int]) && class_name(
                state.heap@[i as int],
            ) == name@,
            None => !has_class_named(state.heap@, name@),
        },
{
    let mut i: usize = 0;
    while i < state.heap.len()
        invariant
            i <= state.heap@.len(),
            forall|j: int|
                0 <= j < i ==> !(is_class(#[trigger] state.heap@[j]) && class_name(state.heap@[j])
                    == name@),
        decreases state.heap@.len() - i,
    {
        match &state.heap[i] {
            ObjData::Class { name: cname, .. } => {
                if *cname == *name {
                    return Some(i);
                }
            },
            _ => {},
        }
        i += 1;
    }
    None
}

/// Find the position of an equal key in a hash object's entries.
fn hash_find(state: &MrbState, hid: usize, key: MrbValue) -> (r: Option<usize>)
    requires
        state.wf(),
        hid < state.heap@.len(),
        is_hash(state.heap@[hid as int]),
        valid_value(state.heap@, key),
    ensures
        ({
            let pairs = hash_pairs(state.heap@[hid as int]);
            match r {
                Some(i) => find_key(state.heap@, pairs, key) == i as int && i < pairs.len(),
                None => find_key(state.heap@, pairs, key) == -1,
            }
        }),
{
    match &state.heap[hid] {
        ObjData::Hash { pairs } => {
            let mut i: usize = 0;
            while i < pairs.len()
                invariant
                    state.wf(),
                    valid_value(state.heap@, key),
                    hid < state.heap@.len(),
                    is_hash(state.heap@[hid as int]),
                    pairs@ == hash_pairs(state.heap@[hid as int]),
                    i <= pairs@.len(),
                    forall|j: int|
                        0 <= j < i ==> !val_eq(state.heap@, (#[trigger] pairs@[j]).0, key),
                decreases pairs@.len() - i,
            {
                proof {
                    assert(obj_wf(state.heap@, state.heap@[hid as int]));
                }
                if values_equal(state, pairs[i].0, key) {
                    proof {
                        lemma_find_key_first(state.heap@, pairs@, key, i as int);
                    }
                    return Some(i);
                }
                i += 1;
            }
            proof {
                lemma_find_key_none(state.heap@, pairs@, key);
            }
            None
        },
        _ => unreached(),
    }
}

/// Copy a hash's entries with one position's value replaced, or with a
/// fresh entry appended.
fn pairs_with(
    pairs: &Vec<(MrbValue, MrbValue)>,
    idx: Option<usize>,
    key: MrbValue,
    value: MrbValue,
) -> (r: Vec<(MrbValue, MrbValue)>)
    requires
        idx matches Some(i) ==> i < pairs@.len(),
    ensures
        r@ == match idx {
            None => pairs@.push((key, value)),
            Some(i) => pairs@.update(i as int, (pairs@[i as int].0, value)),
        },
{
    let mut out: Vec<(MrbValue, MrbValue)> = Vec::new();
    let mut j: usize = 0;
    while j < pairs.len()
        invariant
            idx matches Some(i) ==> i < pairs@.len(),
            j <= pairs@.len(),
            out@.len() == j as nat,
            forall|t: int|
                0 <= t < j ==> out@[t] == (match idx {
                    Some(i) => if t == i as int {
                        (pairs@[t].0, value)
                    } else {
                        pairs@[t]
                    },
                    None => pairs@[t],
                }),
        decreases pairs@.len() - j,
    {
        let replace = match idx {
            Some(i) => i == j,
            None => false,
        };
        if replace {
            out.push((pairs[j].0, value));
        } else {
            out.push(pairs[j]);
        }
        j += 1;
    }
    if idx.is_none() {
        out.push((key, value));
    }
    proof {
        match idx {
            None => {
                assert(out@ =~= pairs@.push((key, value)));
            },
            Some(i) => {
                assert(out@ =~= pairs@.update(i as int, (pairs@[i as int].0, value)));
            },
        }
    }
    out
}

impl Context {
    /// The runtime's root object class.
    pub fn object_class(&self, state: &MrbState) -> (r: MrbClass)
        requires
            state.wf(),
        ensures
            r.0.id == ROOT_CLASS_ID,
            is_class(state.heap@[r.0.id as int]),
            class_name(state.heap@[r.0.id as int]) == "Object"@,
    {
        MrbClass(MrbPtr { id: ROOT_CLASS_ID })
    }

    /// Render a value to its text, as the runtime's inspection shows it.
    pub fn inspect(&self, state: &MrbState, value: MrbValue) -> (r: String)
        requires
            state.wf(),
            valid_value(state.heap@, value),
        ensures
            r@ == render_value(state.heap@, value),
    {
        inspect_value(state, value)
    }

    /// The argument values of the guest call currently dispatched.
    pub fn arguments(&self, state: &MrbState) -> (r: Vec<MrbValue>)
        ensures
            r@ == state.args@,
    {
        let mut out: Vec<MrbValue> = Vec::new();
        let mut i: usize = 0;
        while i < state.args.len()
            invariant
                i <= state.args@.len(),
                out@.len() == i as nat,
                forall|j: int| 0 <= j < i ==> out@[j] == state.args@[j],
            decreases state.args@.len() - i,
        {
            out.push(state.args[i]);
            i += 1;
        }
        proof {
            assert(out@ =~= state.args@);
        }
        out
    }

    /// Guest-level equality of two values, routed through the boundary;
    /// in the model it cannot raise, so the result is always a success.
    pub fn equal(&self, state: &mut MrbState, a: MrbValue, b: MrbValue) -> (r: MrbResult<bool>)
        requires
            old(state).wf(),
            old(state).exc is None,
            valid_value(old(state).heap@, a),
            valid_value(old(state).heap@, b),
        ensures
            state_unchanged(*old(state), *final (state)),
            final (state).wf(),
            r == Ok::<bool, MrbException>(val_eq(old(state).heap@, a, b)),
    {
        into_mruby_enter(state);
        let res = values_equal(state, a, b);
        let out = into_mruby_exit(state);
        proof {
            assert(state.slots@ =~= old(state).slots@);
        }
        match out {
            BoundaryOutcome::Clean => Ok(res),
            BoundaryOutcome::GuestException(_) => unreached(),
            BoundaryOutcome::HostFault(_) => unreached(),
        }
    }

    /// Create a guest string object holding this text.
    pub fn new_string(&self, state: &mut MrbState, string: &str) -> (r: MrbResult<MrbValue>)
        requires
            old(state).wf(),
            old(state).exc is None,
        ensures
            final (state).wf(),
            new_string_rel(*old(state), *final (state), string@, r),
    {
        into_mruby_enter(state);
        let id = state.heap.len();
        state.heap.push(ObjData::Str { text: String::from_str(string) });
        state.arena.push(id);
        proof {
            lemma_heap_wf_push(old(state).heap@, state.heap@.last());
        }
        let out = into_mruby_exit(state);
        proof {
            assert(state.slots@ =~= old(state).slots@);
        }
        match out {
            BoundaryOutcome::Clean => Ok(MrbValue::Obj(MrbPtr { id })),
            BoundaryOutcome::GuestException(_) => unreached(),
            BoundaryOutcome::HostFault(_) => unreached(),
        }
    }

    /// Create a guest string object from text with static lifetime; the
    /// native layer can then share the buffer instead of copying it, which
    /// changes nothing the host can observe.
    pub fn new_string_static(&self, state: &mut MrbState, string: &'static str) -> (r: MrbResult<
        MrbValue,
    >)
        requires
            old(state).wf(),
            old(state).exc is None,
        ensures
            final (state).wf(),
            new_string_rel(*old(state), *final (state), string@, r),
    {
        self.new_string(state, string)
    }

    /// Create an empty guest hash.
    pub fn new_hash(&self, state: &mut MrbState) -> (r: MrbResult<MrbValue>)
        requires
            old(state).wf(),
            old(state).exc is None,
        ensures
            final (state).wf(),
            new_hash_rel(*old(state), *final (state), r),
    {
        into_mruby_enter(state);
        let id = state.heap.len();
        state.heap.push(ObjData::Hash { pairs: Vec::new() });
        state.arena.push(id);
        proof {
            lemma_heap_wf_push(old(state).heap@, state.heap@.last());
        }
        let out = into_mruby_exit(state);
        proof {
            assert(state.slots@ =~= old(state).slots@);
        }
        match out {
            BoundaryOutcome::Clean => Ok(MrbValue::Obj(MrbPtr { id })),
            BoundaryOutcome::GuestException(_) => unreached(),
            BoundaryOutcome::HostFault(_) => unreached(),
        }
    }

    /// Define a class under `name` with the given superclass, or hand
    /// back the class already defined under that name; a name collision
    /// with another superclass raises a guest `TypeError`, leaving the
    /// first definition valid and usable.
    pub fn define_class(&self, state: &mut MrbState, name: &str, superclass: MrbClass) -> (r:
        MrbResult<MrbClass>)
        requires
            old(state).wf(),
            old(state).exc is None,
            superclass.0.id < old(state).heap@.len(),
            is_class(old(state).heap@[superclass.0.id as int]),
        ensures
            final (state).wf(),
            define_class_rel(*old(state), *final (state), name@, superclass, r),
    {
        into_mruby_enter(state);
        let name_s = String::from_str(name);
        let found = find_class(state, &name_s);
        match found {
            Some(i) => {
                proof {
                    assert(has_class_named(old(state).heap@, name@));
                    let j = class_id_of(old(state).heap@, name@);
                    assert(is_class(old(state).heap@[j]) && class_name(old(state).heap@[j])
                        == name@);
                    assert(j == i as int);
                }
                let sc = match &state.heap[i] {
                    ObjData::Class { superclass: sc, .. } => *sc,
                    _ => unreached(),
                };
                if sc == superclass.0.id {
                    let out = into_mruby_exit(state);
                    proof {
                        assert(state.slots@ =~= old(state).slots@);
                    }
                    match out {
                        BoundaryOutcome::Clean => Ok(MrbClass(MrbPtr { id: i })),
                        BoundaryOutcome::GuestException(_) => unreached(),
                        BoundaryOutcome::HostFault(_) => unreached(),
                    }
                } else {
                    proof {
                        assert(obj_wf(state.heap@, state.heap@[i as int]));
                    }
                    let old_super_name = match &state.heap[sc] {
                        ObjData::Class { name: n, .. } => n.clone(),
                        _ => unreached(),
                    };
                    let new_super_name = match &state.heap[superclass.0.id] {
                        ObjData::Class { name: n, .. } => n.clone(),
                        _ => unreached(),
                    };
                    let mut msg = String::from_str("superclass mismatch for Class ");
                    msg.append(name_s.as_str());
                    msg.append(" (");
                    msg.append(old_super_name.as_str());
                    msg.append(" not ");
                    msg.append(new_super_name.as_str());
                    msg.append(")");
                    let id = state.heap.len();
                    state.heap.push(
                        ObjData::Exc { class_name: String::from_str("TypeError"), message: msg },
                    );
                    state.arena.push(id);
                    state.exc = Some(id);
                    proof {
                        lemma_heap_wf_push(old(state).heap@, state.heap@.last());
                    }
                    let out = into_mruby_exit(state);
                    proof {
                        assert(state.slots@ =~= old(state).slots@);
                    }
                    match out {
                        BoundaryOutcome::Clean => unreached(),
                        BoundaryOutcome::GuestException(e) => Err(e),
                        BoundaryOutcome::HostFault(_) => unreached(),
                    }
                }
            },
            None => {
                let id = state.heap.len();
                state.heap.push(ObjData::Class { name: name_s, superclass: superclass.0.id });
                state.arena.push(id);
                proof {
                    lemma_heap_wf_push(old(state).heap@, state.heap@.last());
                }
                let out = into_mruby_exit(state);
                proof {
                    assert(state.slots@ =~= old(state).slots@);
                }
                match out {
                    BoundaryOutcome::Clean => Ok(MrbClass(MrbPtr { id })),
                    BoundaryOutcome::GuestException(_) => unreached(),
                    BoundaryOutcome::HostFault(_) => unreached(),
                }
            },
        }
    }

    /// Evaluate a chunk of guest source. The evaluation itself happens on
    /// the native side; `outcome` is what it did, and the boundary turns
    /// it into a typed result: a value passes through, a raise becomes a
    /// typed error carrying the retained exception object.
    pub fn load_string(&self, state: &mut MrbState, code: &str, outcome: EvalOutcome) -> (r:
        MrbResult<MrbValue>)
        requires
            old(state).wf(),
            old(state).exc is None,
            outcome matches EvalOutcome::Value(v) ==> valid_value(old(state).heap@, v),
        ensures
            final (state).wf(),
            load_string_rel(*old(state), *final (state), outcome, r),
    {
        into_mruby_enter(state);
        match outcome {
            EvalOutcome::Value(v) => {
                let out = into_mruby_exit(state);
                proof {
                    assert(state.slots@ =~= old(state).slots@);
                }
                match out {
                    BoundaryOutcome::Clean => Ok(v),
                    BoundaryOutcome::GuestException(_) => unreached(),
                    BoundaryOutcome::HostFault(_) => unreached(),
                }
            },
            EvalOutcome::Raised { class_name: c, message: m } => {
                let id = state.heap.len();
                state.heap.push(ObjData::Exc { class_name: c, message: m });
                state.arena.push(id);
                state.exc = Some(id);
                proof {
                    lemma_heap_wf_push(old(state).heap@, state.heap@.last());
                }
                let out = into_mruby_exit(state);
                proof {
                    assert(state.slots@ =~= old(state).slots@);
                }
                match out {
                    BoundaryOutcome::Clean => unreached(),
                    BoundaryOutcome::GuestException(e) => Err(e),
                    BoundaryOutcome::HostFault(_) => unreached(),
                }
            },
        }
    }

    /// Set `key` to `value` in a hash: an entry with an equal key keeps
    /// its place and gets the new value, a fresh key is appended at the
    /// end, preserving insertion order.
    pub fn hash_set(
        &self,
        state: &mut MrbState,
        hash: MrbValue,
        key: MrbValue,
        value: MrbValue,
    ) -> (r: MrbResult<()>)
        requires
            old(state).wf(),
            old(state).exc is None,
            hash matches MrbValue::Obj(p) && p.id < old(state).heap@.len() && is_hash(
                old(state).heap@[p.id as int],
            ),
            valid_value(old(state).heap@, key),
            valid_value(old(state).heap@, value),
        ensures
            final (state).wf(),
            hash_set_rel(*old(state), *final (state), hash, key, value, r),
    {
        into_mruby_enter(state);
        let p = match hash {
            MrbValue::Obj(p) => p,
            _ => unreached(),
        };
        let idx = hash_find(state, p.id, key);
        let np = match &state.heap[p.id] {
            ObjData::Hash { pairs } => {
                proof {
                    assert(obj_wf(state.heap@, state.heap@[p.id as int]));
                    match idx {
                        Some(i) => {
                            assert(find_key(state.heap@, pairs@, key) == i as int);
                        },
                        None => {},
                    }
                }
                pairs_with(pairs, idx, key, value)
            },
            _ => unreached(),
        };
        state.heap.set(p.id, ObjData::Hash { pairs: np });
        proof {
            let h = old(state).heap@;
            let opairs = hash_pairs(h[p.id as int]);
            let npairs = hash_pairs(state.heap@[p.id as int]);
            assert(obj_wf(h, h[p.id as int]));
            let fk = find_key(h, opairs, key);
            if fk < 0 {
                lemma_find_key_not_found(h, opairs, key);
                assert(npairs == opairs.push((key, value)));
                assert forall|j: int, k: int| 0 <= j < k < npairs.len() implies !val_eq(
                    h,
                    (#[trigger] npairs[j]).0,
                    (#[trigger] npairs[k]).0,
                ) by {
                    if k < opairs.len() {
                        assert(npairs[j] == opairs[j] && npairs[k] == opairs[k]);
                    } else {
                        assert(npairs[j] == opairs[j] && npairs[k] == (key, value));
                    }
                }
            } else {
                assert(npairs == opairs.update(fk, (opairs[fk].0, value)));
                assert forall|j: int, k: int| 0 <= j < k < npairs.len() implies !val_eq(
                    h,
                    (#[trigger] npairs[j]).0,
                    (#[trigger] npairs[k]).0,
                ) by {
                    assert(npairs[j].0 == opairs[j].0 && npairs[k].0 == opairs[k].0);
                }
            }
            assert(obj_wf(h, state.heap@[p.id as int]));
            lemma_heap_wf_update_hash(h, p.id as int, state.heap@[p.id as int]);
            assert(state.heap@ =~= h.update(p.id as int, state.heap@[p.id as int]));
        }
        let out = into_mruby_exit(state);
        proof {
            assert(state.slots@ =~= old(state).slots@);
        }
        match out {
            BoundaryOutcome::Clean => Ok(()),
            BoundaryOutcome::GuestException(_) => unreached(),
            BoundaryOutcome::HostFault(_) => unreached(),
        }
    }
}

impl Mrb {
    /// Open the runtime session. The model session always initializes.
    pub fn open() -> (r: Mrb)
        ensures
            r.state.wf(),
            r.state.arena@.len() == 0,
            r.state.heap@.len() == 1,
            r.state.exc is None,
            r.state.slots@.len() == 0,
            r.state.methods@.len() == 0,
            r.state.args@.len() == 0,
    {
        match MrbState::open() {
            Ok(state) => Mrb { state },
            Err(_) => unreached(),
        }
    }

    /// Begin a unit of work: save the current arena checkpoint.
    pub fn context(&self) -> (ctx: Context)
        ensures
            context_begin_rel(self.state, ctx),
    {
        Context { checkpoint: self.state.arena.len() }
    }

    /// End a unit of work: unconditionally restore the arena to the
    /// checkpoint the context saved, releasing retention of every object
    /// produced since.
    pub fn end_context(&mut self, ctx: Context)
        requires
            ctx.checkpoint <= old(self).state.arena@.len(),
        ensures
            context_end_rel(old(self).state, final (self).state, ctx),
            old(self).state.wf() ==> final (self).state.wf(),
    {
        self.state.arena.truncate(ctx.checkpoint);
        proof {
            assert(final (self).state.arena@ =~= old(self).state.arena@.subrange(
                0,
                ctx.checkpoint as int,
            ));
        }
    }
}

/// Law: defining the same class name twice with an incompatible
/// superclass yields a guest exception — a typed error, not a host fault
/// and not an ambient exception — and the first definition's class object
/// is untouched, still named and parented as defined.
pub proof fn lemma_class_redefinition_conflict(
    s0: MrbState,
    s1: MrbState,
    s2: MrbState,
    name: Seq<char>,
    sup0: MrbClass,
    sup1: MrbClass,
    c: MrbClass,
    r: MrbResult<MrbClass>,
)
    requires
        s1.wf(),
        s0.heap@.len() <= usize::MAX as nat,
        !has_class_named(s0.heap@, name),
        define_class_rel(s0, s1, name, sup0, Ok(c)),
        define_class_rel(s1, s2, name, sup1, r),
        sup1.0.id != sup0.0.id,
    ensures
        r is Err,
        s2.exc is None,
        s2.heap@[c.0.id as int] == s1.heap@[c.0.id as int],
        is_class(s2.heap@[c.0.id as int]),
        class_name(s2.heap@[c.0.id as int]) == name,
        class_super(s2.heap@[c.0.id as int]) == sup0.0.id as int,
{
    assert(c.0.id == s0.heap@.len());
    assert(s1.heap@.last() == s1.heap@[c.0.id as int]);
    assert(is_class(s1.heap@[c.0.id as int]) && class_name(s1.heap@[c.0.id as int]) == name);
    assert(has_class_named(s1.heap@, name));
    let j = class_id_of(s1.heap@, name);
    assert(0 <= j < s1.heap@.len() && is_class(s1.heap@[j]) && class_name(s1.heap@[j]) == name);
    assert(j == c.0.id as int);
    assert(class_super(s1.heap@[j]) != sup1.0.id as int);
}

/// Law: beginning a context and ending it restores the arena to exactly
/// the state saved at the start — the checkpoint round trip.
pub proof fn lemma_checkpoint_round_trip(s0: MrbState, s1: MrbState, ctx: Context)
    requires
        context_begin_rel(s0, ctx),
        context_end_rel(s0, s1, ctx),
    ensures
        s1.arena@ == s0.arena@,
        s0.same_but_arena(s1),
{
    assert(s0.arena@.subrange(0, ctx.checkpoint as int) =~= s0.arena@);
}

/// Law: ending a context releases only entries at or above its own
/// checkpoint; every arena entry below the checkpoint — everything an
/// outer context anchored — is untouched.
pub proof fn lemma_end_preserves_outer_entries(
    pre: MrbState,
    post: MrbState,
    ctx: Context,
    k: int,
)
    requires
        context_end_rel(pre, post, ctx),
        0 <= k < ctx.checkpoint,
    ensures
        post.arena@.len() == ctx.checkpoint,
        post.arena@[k] == pre.arena@[k],
        post.heap@ == pre.heap@,
{
}

/// Law: nested contexts restore their checkpoints in strict reverse
/// order. With an outer context begun at `s0` and an inner one begun at
/// `s1`, ending the inner context releases exactly the objects produced
/// after it began — everything the outer context anchored is still there —
/// and ending the outer context afterwards restores the outer checkpoint.
pub proof fn lemma_nested_contexts_lifo(
    s0: MrbState,
    s1: MrbState,
    s2: MrbState,
    s3: MrbState,
    s4: MrbState,
    outer: Context,
    inner: Context,
)
    requires
        context_begin_rel(s0, outer),
        s0.arena@.is_prefix_of(s1.arena@),
        context_begin_rel(s1, inner),
        s1.arena@.is_prefix_of(s2.arena@),
        context_end_rel(s2, s3, inner),
        context_end_rel(s3, s4, outer),
    ensures
        s3.arena@ == s1.arena@,
        s4.arena@ == s0.arena@,
{
    assert(s2.arena@.subrange(0, inner.checkpoint as int) =~= s1.arena@);
    assert(s3.arena@.subrange(0, outer.checkpoint as int) =~= s0.arena@);
}

} // verus!
