//! The model of a runtime session: the observable state that the boundary
//! protocol reads and writes.
//!
//! `MrbState` models exactly the session attributes the safety protocol
//! depends on: the heap objects the host can observe, the GC-retention
//! arena (a stack of retained object ids), the outstanding-exception slot,
//! the stack of installed fault-capture slots (the user-data chain), the
//! registered host methods, and the current guest call's argument list.
//! The heap only ever grows; collection is modelled through the arena
//! alone, which is what the retention protocol is about.

use vstd::prelude::*;

use crate::object::{
    keys_distinct, lemma_val_eq_stable, lemma_val_eq_update_nonstr, val_eq, valid_value, MrbValue,
};

verus! {

/// A captured host-side fault: the opaque payload that must cross the
/// runtime's native frames without being seen by guest code.
pub struct HostFault {
    pub message: String,
}

/// A registered host method: its class, its guest-visible name, and the
/// token naming the durable closure holder handed to the native layer.
pub struct MethodEntry {
    pub class_id: usize,
    pub name: String,
    pub token: usize,
}

/// A guest heap object, as far as the host can observe one.
pub enum ObjData {
    /// A string object.
    Str { text: String },
    /// A hash, holding its entries in insertion order with unique keys.
    Hash { pairs: Vec<(MrbValue, MrbValue)> },
    /// A class; `superclass` is the heap id of its superclass, and the
    /// root class is its own superclass.
    Class { name: String, superclass: usize },
    /// An exception object: its class name and its message.
    Exc { class_name: String, message: String },
}

/// The observable state of one live runtime session.
pub struct MrbState {
    /// Every guest heap object the host has observed, by id.
    pub heap: Vec<ObjData>,
    /// The GC-retention arena: ids retained against collection, a stack.
    pub arena: Vec<usize>,
    /// The outstanding guest exception, if one has been raised and not
    /// yet translated at an inbound crossing.
    pub exc: Option<usize>,
    /// The fault-capture slots installed by inbound crossings, innermost
    /// last: the model of the session's user-data chain.
    pub slots: Vec<Option<HostFault>>,
    /// The host methods registered with the runtime.
    pub methods: Vec<MethodEntry>,
    /// The argument values of the guest call currently dispatched, if any.
    pub args: Vec<MrbValue>,
}

/// Heap id of the root class, made by `MrbState::open`.
pub const ROOT_CLASS_ID: usize = 0;

pub open spec fn is_class(o: ObjData) -> bool {
    o matches ObjData::Class { .. }
}

pub open spec fn class_name(o: ObjData) -> Seq<char> {
    match o {
        ObjData::Class { name, .. } => name@,
        _ => Seq::empty(),
    }
}

pub open spec fn class_super(o: ObjData) -> int {
    match o {
        ObjData::Class { superclass, .. } => superclass as int,
        _ => 0,
    }
}

pub open spec fn is_str(o: ObjData) -> bool {
    o matches ObjData::Str { .. }
}

pub open spec fn str_text(o: ObjData) -> Seq<char> {
    match o {
        ObjData::Str { text } => text@,
        _ => Seq::empty(),
    }
}

pub open spec fn is_hash(o: ObjData) -> bool {
    o matches ObjData::Hash { .. }
}

pub open spec fn hash_pairs(o: ObjData) -> Seq<(MrbValue, MrbValue)> {
    match o {
        ObjData::Hash { pairs } => pairs@,
        _ => Seq::empty(),
    }
}

pub open spec fn is_exc(o: ObjData) -> bool {
    o matches ObjData::Exc { .. }
}

pub open spec fn exc_class(o: ObjData) -> Seq<char> {
    match o {
        ObjData::Exc { class_name, .. } => class_name@,
        _ => Seq::empty(),
    }
}

pub open spec fn exc_message(o: ObjData) -> Seq<char> {
    match o {
        ObjData::Exc { message, .. } => message@,
        _ => Seq::empty(),
    }
}

/// One heap object is internally consistent with the heap around it.
pub open spec fn obj_wf(heap: Seq<ObjData>, o: ObjData) -> bool {
    match o {
        ObjData::Str { .. } => true,
        ObjData::Hash { pairs } => (forall|i: int|
            0 <= i < pairs@.len() ==> valid_value(heap, (#[trigger] pairs@[i]).0)
                && valid_value(heap, pairs@[i].1)) && keys_distinct(heap, pairs@),
        ObjData::Class { superclass, .. } => superclass < heap.len() && is_class(
            heap[superclass as int],
        ),
        ObjData::Exc { .. } => true,
    }
}

/// Every object of the heap is internally consistent with it.
pub open spec fn heap_closed(h: Seq<ObjData>) -> bool {
    forall|i: int| 0 <= i < h.len() ==> obj_wf(h, #[trigger] h[i])
}

/// No two classes of the heap share a name.
pub open spec fn class_names_unique(h: Seq<ObjData>) -> bool {
    forall|i: int, j: int|
        0 <= i < h.len() && 0 <= j < h.len() && is_class(h[i]) && is_class(h[j])
            && #[trigger] class_name(h[i]) == #[trigger] class_name(h[j]) ==> i == j
}

/// Some class of the heap bears this name.
pub open spec fn has_class_named(h: Seq<ObjData>, name: Seq<char>) -> bool {
    exists|i: int| 0 <= i < h.len() && is_class(#[trigger] h[i]) && class_name(h[i]) == name
}

/// The id of the class bearing this name; meaningful only when
/// `has_class_named` holds, and then unique by `class_names_unique`.
pub open spec fn class_id_of(h: Seq<ObjData>, name: Seq<char>) -> int {
    choose|i: int| 0 <= i < h.len() && is_class(#[trigger] h[i]) && class_name(h[i]) == name
}

/// Well-formedness of a heap: the root class sits at id zero, every
/// object is consistent with the heap, and class names are unique.
pub open spec fn heap_wf(h: Seq<ObjData>) -> bool {
    &&& h.len() >= 1
    &&& is_class(h[ROOT_CLASS_ID as int])
    &&& class_name(h[ROOT_CLASS_ID as int]) == "Object"@
    &&& class_super(h[ROOT_CLASS_ID as int]) == ROOT_CLASS_ID as int
    &&& heap_closed(h)
    &&& class_names_unique(h)
}

/// An object consistent with a heap stays consistent with any extension
/// of it that keeps the earlier entries.
pub proof fn lemma_obj_wf_prefix(h1: Seq<ObjData>, h2: Seq<ObjData>, o: ObjData)
    requires
        obj_wf(h1, o),
        h1.len() <= h2.len(),
        forall|i: int| 0 <= i < h1.len() ==> h2[i] == h1[i],
    ensures
        obj_wf(h2, o),
{
    match o {
        ObjData::Hash { pairs } => {
            assert forall|j: int, k: int| 0 <= j < k < pairs@.len() implies !val_eq(
                h2,
                (#[trigger] pairs@[j]).0,
                (#[trigger] pairs@[k]).0,
            ) by {
                lemma_val_eq_stable(h1, h2, pairs@[j].0, pairs@[k].0);
            }
        },
        _ => {},
    }
}

/// Pushing a consistent object — and, for a class, one whose name is
/// fresh — preserves heap well-formedness.
pub proof fn lemma_heap_wf_push(h: Seq<ObjData>, o: ObjData)
    requires
        heap_wf(h),
        obj_wf(h, o),
        is_class(o) ==> !has_class_named(h, class_name(o)),
    ensures
        heap_wf(h.push(o)),
{
    let h2 = h.push(o);
    assert forall|i: int| 0 <= i < h2.len() implies obj_wf(h2, #[trigger] h2[i]) by {
        if i < h.len() {
            lemma_obj_wf_prefix(h, h2, h[i]);
        } else {
            lemma_obj_wf_prefix(h, h2, o);
        }
    }
    assert forall|i: int, j: int|
        0 <= i < h2.len() && 0 <= j < h2.len() && is_class(h2[i]) && is_class(h2[j])
            && #[trigger] class_name(h2[i]) == #[trigger] class_name(h2[j]) implies i == j by {
        if i < h.len() && j < h.len() {
        } else if i == h.len() as int && j < h.len() {
            assert(is_class(h[j]) && class_name(h[j]) == class_name(o));
        } else if j == h.len() as int && i < h.len() {
            assert(is_class(h[i]) && class_name(h[i]) == class_name(o));
        }
    }
}

/// Replacing a hash object's entry with another consistent hash object
/// preserves heap well-formedness.
pub proof fn lemma_heap_wf_update_hash(h: Seq<ObjData>, hid: int, o: ObjData)
    requires
        heap_wf(h),
        0 <= hid < h.len(),
        is_hash(h[hid]),
        is_hash(o),
        obj_wf(h, o),
    ensures
        heap_wf(h.update(hid, o)),
{
    let h2 = h.update(hid, o);
    assert(hid != ROOT_CLASS_ID as int);
    assert forall|i: int| 0 <= i < h2.len() implies obj_wf(h2, #[trigger] h2[i]) by {
        if i == hid {
            assert(h2[i] == o);
        } else {
            assert(h2[i] == h[i]);
            assert(obj_wf(h, h[i]));
        }
        match h2[i] {
            ObjData::Hash { pairs } => {
                assert(forall|t: int|
                    0 <= t < pairs@.len() ==> valid_value(h2, (#[trigger] pairs@[t]).0)
                        && valid_value(h2, pairs@[t].1));
                assert forall|j: int, k: int| 0 <= j < k < pairs@.len() implies !val_eq(
                    h2,
                    (#[trigger] pairs@[j]).0,
                    (#[trigger] pairs@[k]).0,
                ) by {
                    lemma_val_eq_update_nonstr(h, hid, o, pairs@[j].0, pairs@[k].0);
                }
            },
            ObjData::Class { superclass, .. } => {
                assert(superclass as int != hid);
                assert(h2[superclass as int] == h[superclass as int]);
            },
            _ => {},
        }
    }
    assert forall|i: int, j: int|
        0 <= i < h2.len() && 0 <= j < h2.len() && is_class(h2[i]) && is_class(h2[j])
            && #[trigger] class_name(h2[i]) == #[trigger] class_name(h2[j]) implies i == j by {
        assert(i != hid && j != hid);
        assert(h2[i] == h[i] && h2[j] == h[j]);
    }
}

impl MrbState {
    /// Well-formedness of a session: the heap is well formed, every
    /// stored id points into the heap, the exception slot (when set)
    /// names an exception object, and registered methods name classes.
    pub open spec fn wf(self) -> bool {
        &&& heap_wf(self.heap@)
        &&& forall|i: int| 0 <= i < self.arena@.len() ==> (#[trigger] self.arena@[i]) < self.heap@.len()
        &&& match self.exc {
            Some(id) => id < self.heap@.len() && is_exc(self.heap@[id as int]),
            None => true,
        }
        &&& forall|i: int|
            0 <= i < self.methods@.len() ==> (#[trigger] self.methods@[i]).class_id
                < self.heap@.len() && is_class(self.heap@[self.methods@[i].class_id as int])
        &&& forall|i: int|
            0 <= i < self.args@.len() ==> valid_value(self.heap@, #[trigger] self.args@[i])
    }

    /// All parts of the session but the arena are the same.
    pub open spec fn same_but_arena(self, other: MrbState) -> bool {
        &&& other.heap@ == self.heap@
        &&& other.exc == self.exc
        &&& other.slots@ == self.slots@
        &&& other.methods@ == self.methods@
        &&& other.args@ == self.args@
    }

    /// All parts of the session but the fault-capture slots are the same.
    pub open spec fn same_but_slots(self, other: MrbState) -> bool {
        &&& other.heap@ == self.heap@
        &&& other.arena@ == self.arena@
        &&& other.exc == self.exc
        &&& other.methods@ == self.methods@
        &&& other.args@ == self.args@
    }

    /// All parts of the session but the slots and the exception slot are
    /// the same.
    pub open spec fn same_but_slots_exc(self, other: MrbState) -> bool {
        &&& other.heap@ == self.heap@
        &&& other.arena@ == self.arena@
        &&& other.methods@ == self.methods@
        &&& other.args@ == self.args@
    }

    /// Opening a session gives the fresh state: a heap holding only the
    /// root class, nothing retained, no exception, no installed slot, no
    /// methods, no call arguments.
    pub fn open() -> (r: Result<MrbState, ()>)
        ensures
            r matches Ok(s) && s.wf() && s.heap@.len() == 1 && is_class(s.heap@[0]) && class_name(
                s.heap@[0],
            ) == "Object"@ && class_super(s.heap@[0]) == 0 && s.arena@ =~= Seq::<usize>::empty()
                && s.exc is None && s.slots@ =~= Seq::<Option<HostFault>>::empty() && s.methods@
                =~= Seq::<MethodEntry>::empty() && s.args@ =~= Seq::<MrbValue>::empty(),
    {
        let mut heap: Vec<ObjData> = Vec::new();
        heap.push(ObjData::Class { name: String::from_str("Object"), superclass: ROOT_CLASS_ID });
        let s = MrbState {
            heap,
            arena: Vec::new(),
            exc: None,
            slots: Vec::new(),
            methods: Vec::new(),
            args: Vec::new(),
        };
        Ok(s)
    }
}

} // verus!
