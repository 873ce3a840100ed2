//! Branded handles over the runtime's value and heap-object representations,
//! and the rendering of a value to its human-readable text.
//!
//! A `MrbValue` is the union representation of any guest value, scalars
//! included; `MrbPtr` is a handle to a heap object, and `MrbObject`,
//! `MrbClass` and `MrbException` are its inspectable specializations. In the
//! model a heap object is named by its index into the session's heap, where
//! the native layer carries a raw pointer; validity of a handle is therefore
//! a specification predicate over the session it came from.

use vstd::prelude::*;

use crate::state::{exc_class, exc_message, heap_closed, is_exc, is_str, obj_wf, str_text, MrbState, ObjData};

verus! {

/// A handle to a guest heap object: in the model, an index into the
/// session's heap.
#[derive(Clone, Copy, Debug, PartialEq, Eq, Structural)]
pub struct MrbPtr {
    pub id: usize,
}

/// The union representation of any guest value, heap objects and
/// non-heap scalars alike.
#[derive(Clone, Copy, Debug, PartialEq, Eq, Structural)]
pub enum MrbValue {
    Nil,
    Bool(bool),
    Fixnum(i64),
    Obj(MrbPtr),
}

/// A handle to a guest heap object of any kind.
#[derive(Clone, Copy, Debug, PartialEq, Eq, Structural)]
pub struct MrbObject(pub MrbPtr);

/// A handle to a guest class object.
#[derive(Clone, Copy, Debug, PartialEq, Eq, Structural)]
pub struct MrbClass(pub MrbPtr);

/// A handle to a guest exception object.
#[derive(Clone, Copy, Debug, PartialEq, Eq, Structural)]
pub struct MrbException(pub MrbPtr);

impl MrbClass {
    /// Losslessly upcast a class handle to a plain object handle.
    pub fn to_object(self) -> (r: MrbObject)
        ensures
            r.0 == self.0,
    {
        MrbObject(self.0)
    }
}

impl MrbException {
    /// Losslessly upcast an exception handle to a plain object handle.
    pub fn to_object(self) -> (r: MrbObject)
        ensures
            r.0 == self.0,
    {
        MrbObject(self.0)
    }
}

/// The decimal rendering of one digit.
pub open spec fn dec_digit(d: nat) -> Seq<char> {
    if d == 0 {
        "0"@
    } else if d == 1 {
        "1"@
    } else if d == 2 {
        "2"@
    } else if d == 3 {
        "3"@
    } else if d == 4 {
        "4"@
    } else if d == 5 {
        "5"@
    } else if d == 6 {
        "6"@
    } else if d == 7 {
        "7"@
    } else if d == 8 {
        "8"@
    } else {
        "9"@
    }
}

/// The decimal rendering of a non-negative number, most significant
/// digit first.
pub open spec fn dec_digits(n: nat) -> Seq<char>
    decreases n,
{
    if n < 10 {
        dec_digit(n)
    } else {
        dec_digits(n / 10) + dec_digit(n % 10)
    }
}

/// The decimal rendering of an integer, with a leading minus sign when
/// negative.
pub open spec fn render_fixnum(n: int) -> Seq<char> {
    if n < 0 {
        "-"@ + dec_digits((-n) as nat)
    } else {
        dec_digits(n as nat)
    }
}

/// The rendering of a value against a heap, with `fuel` bounding how
/// deeply nested hashes are followed; a hash met with no fuel left
/// renders as an ellipsis. Scalars render as their text, a string object
/// as its text in quotes, a class as its name, an exception as
/// `message (ClassName)`, and a hash as its `key=>value` entries in
/// insertion order between braces.
pub open spec fn render_at(heap: Seq<ObjData>, v: MrbValue, fuel: nat) -> Seq<char>
    decreases fuel, 0int,
{
    match v {
        MrbValue::Nil => "nil"@,
        MrbValue::Bool(b) => if b {
            "true"@
        } else {
            "false"@
        },
        MrbValue::Fixnum(n) => render_fixnum(n as int),
        MrbValue::Obj(p) => if p.id < heap.len() {
            match heap[p.id as int] {
                ObjData::Str { text } => "\""@ + text@ + "\""@,
                ObjData::Class { name, .. } => name@,
                ObjData::Exc { class_name, message } => message@ + " ("@ + class_name@ + ")"@,
                ObjData::Hash { pairs } => if fuel == 0 {
                    "{...}"@
                } else {
                    "{"@ + render_pairs(heap, pairs@, (fuel - 1) as nat) + "}"@
                },
            }
        } else {
            Seq::empty()
        },
    }
}

/// The rendering of a hash's entries, in order, separated by commas.
pub open spec fn render_pairs(
    heap: Seq<ObjData>,
    pairs: Seq<(MrbValue, MrbValue)>,
    fuel: nat,
) -> Seq<char>
    decreases fuel, pairs.len() + 1,
{
    if pairs.len() == 0 {
        Seq::empty()
    } else {
        let head = render_at(heap, pairs[0].0, fuel) + "=>"@ + render_at(heap, pairs[0].1, fuel);
        if pairs.len() == 1 {
            head
        } else {
            head + ", "@ + render_pairs(heap, pairs.drop_first(), fuel)
        }
    }
}

/// The rendering of a value: nesting is bounded by the heap's size, which
/// covers every chain of distinct objects.
pub open spec fn render_value(heap: Seq<ObjData>, v: MrbValue) -> Seq<char> {
    render_at(heap, v, heap.len())
}

/// An object id points at an entry of the heap.
pub open spec fn id_in_heap(heap: Seq<ObjData>, id: usize) -> bool {
    id < heap.len()
}

/// A value is valid for a session when any heap handle it carries points
/// at an entry of that session's heap.
pub open spec fn valid_value(heap: Seq<ObjData>, v: MrbValue) -> bool {
    match v {
        MrbValue::Obj(p) => id_in_heap(heap, p.id),
        _ => true,
    }
}

/// Guest-level equality of two values: scalars structurally, string
/// objects by their text, other heap objects by identity.
pub open spec fn val_eq(heap: Seq<ObjData>, a: MrbValue, b: MrbValue) -> bool {
    match (a, b) {
        (MrbValue::Obj(p), MrbValue::Obj(q)) => if p.id < heap.len() && q.id < heap.len()
            && is_str(heap[p.id as int]) && is_str(heap[q.id as int]) {
            str_text(heap[p.id as int]) == str_text(heap[q.id as int])
        } else {
            p.id == q.id
        },
        _ => a == b,
    }
}

/// No two entries carry keys that are equal at guest level.
pub open spec fn keys_distinct(heap: Seq<ObjData>, pairs: Seq<(MrbValue, MrbValue)>) -> bool {
    forall|j: int, k: int|
        0 <= j < k < pairs.len() ==> !val_eq(heap, (#[trigger] pairs[j]).0, (#[trigger] pairs[k]).0)
}

/// The first position of a hash's entries whose key equals `key` at guest
/// level, or minus one when there is none.
pub open spec fn find_key(
    heap: Seq<ObjData>,
    pairs: Seq<(MrbValue, MrbValue)>,
    key: MrbValue,
) -> int
    decreases pairs.len(),
{
    if pairs.len() == 0 {
        -1
    } else if val_eq(heap, pairs[0].0, key) {
        0
    } else {
        let rest = find_key(heap, pairs.drop_first(), key);
        if rest < 0 {
            -1
        } else {
            rest + 1
        }
    }
}

/// What setting `key` to `value` does to a hash's entries: an existing
/// entry with an equal key keeps its place (and its stored key); a fresh
/// key is appended, preserving insertion order.
pub open spec fn hash_upsert(
    heap: Seq<ObjData>,
    pairs: Seq<(MrbValue, MrbValue)>,
    key: MrbValue,
    value: MrbValue,
) -> Seq<(MrbValue, MrbValue)> {
    let i = find_key(heap, pairs, key);
    if i < 0 {
        pairs.push((key, value))
    } else {
        pairs.update(i, (pairs[i].0, value))
    }
}

/// A first matching position determines `find_key`.
pub proof fn lemma_find_key_first(
    heap: Seq<ObjData>,
    pairs: Seq<(MrbValue, MrbValue)>,
    key: MrbValue,
    i: int,
)
    requires
        0 <= i < pairs.len(),
        val_eq(heap, pairs[i].0, key),
        forall|j: int| 0 <= j < i ==> !val_eq(heap, (#[trigger] pairs[j]).0, key),
    ensures
        find_key(heap, pairs, key) == i,
    decreases pairs.len(),
{
    if i == 0 {
    } else {
        assert(!val_eq(heap, pairs[0].0, key));
        let rest = pairs.drop_first();
        assert forall|j: int| 0 <= j < i - 1 implies !val_eq(heap, (#[trigger] rest[j]).0, key) by {
            assert(rest[j] == pairs[j + 1]);
        }
        assert(rest[i - 1] == pairs[i]);
        lemma_find_key_first(heap, rest, key, i - 1);
    }
}

/// With no matching key anywhere, `find_key` is minus one.
pub proof fn lemma_find_key_none(heap: Seq<ObjData>, pairs: Seq<(MrbValue, MrbValue)>, key: MrbValue)
    requires
        forall|j: int| 0 <= j < pairs.len() ==> !val_eq(heap, (#[trigger] pairs[j]).0, key),
    ensures
        find_key(heap, pairs, key) == -1,
    decreases pairs.len(),
{
    if pairs.len() > 0 {
        assert(!val_eq(heap, pairs[0].0, key));
        let rest = pairs.drop_first();
        assert forall|j: int| 0 <= j < rest.len() implies !val_eq(heap, (#[trigger] rest[j]).0, key) by {
            assert(rest[j] == pairs[j + 1]);
        }
        lemma_find_key_none(heap, rest, key);
    }
}

/// With no matching position anywhere, `find_key` finds none; and when
/// `find_key` finds none, no position matches.
pub proof fn lemma_find_key_not_found(
    heap: Seq<ObjData>,
    pairs: Seq<(MrbValue, MrbValue)>,
    key: MrbValue,
)
    requires
        find_key(heap, pairs, key) == -1,
    ensures
        forall|j: int| 0 <= j < pairs.len() ==> !val_eq(heap, (#[trigger] pairs[j]).0, key),
    decreases pairs.len(),
{
    if pairs.len() > 0 {
        let rest = pairs.drop_first();
        lemma_find_key_not_found(heap, rest, key);
        assert forall|j: int| 0 <= j < pairs.len() implies !val_eq(
            heap,
            (#[trigger] pairs[j]).0,
            key,
        ) by {
            if j > 0 {
                assert(rest[j - 1] == pairs[j]);
            }
        }
    }
}

/// Guest-level equality of two valid values is unchanged by replacing a
/// non-string heap entry with another non-string entry.
pub proof fn lemma_val_eq_update_nonstr(
    h1: Seq<ObjData>,
    hid: int,
    o: ObjData,
    a: MrbValue,
    b: MrbValue,
)
    requires
        0 <= hid < h1.len(),
        !is_str(h1[hid]),
        !is_str(o),
    ensures
        val_eq(h1.update(hid, o), a, b) == val_eq(h1, a, b),
{
}

/// Decide guest-level equality of two values.
pub fn values_equal(state: &MrbState, a: MrbValue, b: MrbValue) -> (r: bool)
    requires
        valid_value(state.heap@, a),
        valid_value(state.heap@, b),
    ensures
        r == val_eq(state.heap@, a, b),
{
    match (a, b) {
        (MrbValue::Obj(p), MrbValue::Obj(q)) => {
            match (&state.heap[p.id], &state.heap[q.id]) {
                (ObjData::Str { text: t1 }, ObjData::Str { text: t2 }) => *t1 == *t2,
                _ => p.id == q.id,
            }
        },
        _ => a == b,
    }
}

/// One decimal digit as text.
fn digit_str(d: u64) -> (r: &'static str)
    requires
        d < 10,
    ensures
        r@ == dec_digit(d as nat),
{
    if d == 0 {
        "0"
    } else if d == 1 {
        "1"
    } else if d == 2 {
        "2"
    } else if d == 3 {
        "3"
    } else if d == 4 {
        "4"
    } else if d == 5 {
        "5"
    } else if d == 6 {
        "6"
    } else if d == 7 {
        "7"
    } else if d == 8 {
        "8"
    } else {
        "9"
    }
}

/// A non-negative number in decimal.
fn dec_str(n: u64) -> (r: String)
    ensures
        r@ == dec_digits(n as nat),
    decreases n,
{
    if n < 10 {
        String::from_str(digit_str(n))
    } else {
        let mut s = dec_str(n / 10);
        s.append(digit_str(n % 10));
        s
    }
}

/// A fixnum in decimal, with a minus sign when negative.
fn fixnum_str(n: i64) -> (r: String)
    ensures
        r@ == render_fixnum(n as int),
{
    if n >= 0 {
        dec_str(n as u64)
    } else {
        let m: u64 = ((-(n + 1)) as u64) + 1;
        assert(m as nat == (-(n as int)) as nat);
        let mut s = String::from_str("-");
        let digits = dec_str(m);
        s.append(digits.as_str());
        s
    }
}

/// Render a value to its text, as the runtime's inspection would show it.
pub fn inspect_value(state: &MrbState, v: MrbValue) -> (r: String)
    requires
        state.wf(),
        valid_value(state.heap@, v),
    ensures
        r@ == render_value(state.heap@, v),
{
    inspect_at(state, v, state.heap.len())
}

/// Render a value with an explicit nesting bound.
fn inspect_at(state: &MrbState, v: MrbValue, fuel: usize) -> (r: String)
    requires
        state.wf(),
        valid_value(state.heap@, v),
    ensures
        r@ == render_at(state.heap@, v, fuel as nat),
    decreases fuel, 0int,
{
    match v {
        MrbValue::Nil => String::from_str("nil"),
        MrbValue::Bool(b) => if b {
            String::from_str("true")
        } else {
            String::from_str("false")
        },
        MrbValue::Fixnum(n) => fixnum_str(n),
        MrbValue::Obj(p) => {
            match &state.heap[p.id] {
                ObjData::Str { text } => {
                    let mut s = String::from_str("\"");
                    s.append(text.as_str());
                    s.append("\"");
                    s
                },
                ObjData::Class { name, .. } => name.clone(),
                ObjData::Exc { class_name, message } => {
                    let mut s = message.clone();
                    s.append(" (");
                    s.append(class_name.as_str());
                    s.append(")");
                    s
                },
                ObjData::Hash { pairs } => {
                    if fuel == 0 {
                        String::from_str("{...}")
                    } else {
                        assert(obj_wf(state.heap@, state.heap@[p.id as int]));
                        let mut s = String::from_str("{");
                        let inner = inspect_pairs(state, pairs, 0, fuel - 1);
                        proof {
                            assert(pairs@.skip(0) =~= pairs@);
                        }
                        s.append(inner.as_str());
                        s.append("}");
                        s
                    }
                },
            }
        },
    }
}

/// Render a hash's entries from position `i` on.
fn inspect_pairs(state: &MrbState, pairs: &Vec<(MrbValue, MrbValue)>, i: usize, fuel: usize) -> (r:
    String)
    requires
        state.wf(),
        i <= pairs@.len(),
        forall|j: int|
            0 <= j < pairs@.len() ==> valid_value(state.heap@, (#[trigger] pairs@[j]).0)
                && valid_value(state.heap@, pairs@[j].1),
    ensures
        r@ == render_pairs(state.heap@, pairs@.skip(i as int), fuel as nat),
    decreases fuel, pairs@.len() - i + 1,
{
    if i == pairs.len() {
        String::new()
    } else {
        let (k, v) = pairs[i];
        let mut s = inspect_at(state, k, fuel);
        s.append("=>");
        let vs = inspect_at(state, v, fuel);
        s.append(vs.as_str());
        if i + 1 < pairs.len() {
            s.append(", ");
            let rest = inspect_pairs(state, pairs, i + 1, fuel);
            s.append(rest.as_str());
        }
        proof {
            assert(pairs@.skip(i as int)[0] == pairs@[i as int]);
            assert(pairs@.skip(i as int).drop_first() =~= pairs@.skip(i as int + 1));
        }
        s
    }
}

/// Law: an exception object renders as its message followed by its
/// class name in parentheses.
pub proof fn lemma_exception_render(heap: Seq<ObjData>, id: usize)
    requires
        id < heap.len(),
        is_exc(heap[id as int]),
    ensures
        render_value(heap, MrbValue::Obj(MrbPtr { id })) == exc_message(heap[id as int]) + " ("@
            + exc_class(heap[id as int]) + ")"@,
{
}

/// Law: a handle stays comparable across later work in its session:
/// guest-level equality of values valid in the earlier heap is unchanged
/// by any later heap that keeps the earlier entries.
pub proof fn lemma_val_eq_stable(h1: Seq<ObjData>, h2: Seq<ObjData>, a: MrbValue, b: MrbValue)
    requires
        valid_value(h1, a),
        valid_value(h1, b),
        h1.len() <= h2.len(),
        forall|i: int| 0 <= i < h1.len() ==> h2[i] == h1[i],
    ensures
        val_eq(h2, a, b) == val_eq(h1, a, b),
{
}

/// Law: a handle stays renderable across later work in its session. The
/// heap only grows, and a value valid in the earlier heap renders
/// identically, at any nesting bound, against any later heap that keeps
/// the earlier entries.
pub proof fn lemma_render_stable(h1: Seq<ObjData>, h2: Seq<ObjData>, v: MrbValue, fuel: nat)
    requires
        heap_closed(h1),
        valid_value(h1, v),
        h1.len() <= h2.len(),
        forall|i: int| 0 <= i < h1.len() ==> h2[i] == h1[i],
    ensures
        render_at(h2, v, fuel) == render_at(h1, v, fuel),
    decreases fuel, 0int,
{
    match v {
        MrbValue::Obj(p) => {
            if p.id < h1.len() {
                assert(h2[p.id as int] == h1[p.id as int]);
                match h1[p.id as int] {
                    ObjData::Hash { pairs } => {
                        if fuel > 0 {
                            assert(obj_wf(h1, h1[p.id as int]));
                            lemma_render_pairs_stable(h1, h2, pairs@, (fuel - 1) as nat);
                        }
                    },
                    _ => {},
                }
            }
        },
        _ => {},
    }
}

/// The entries of a hash render identically against a heap extension.
proof fn lemma_render_pairs_stable(
    h1: Seq<ObjData>,
    h2: Seq<ObjData>,
    pairs: Seq<(MrbValue, MrbValue)>,
    fuel: nat,
)
    requires
        heap_closed(h1),
        forall|j: int|
            0 <= j < pairs.len() ==> valid_value(h1, (#[trigger] pairs[j]).0) && valid_value(
                h1,
                pairs[j].1,
            ),
        h1.len() <= h2.len(),
        forall|i: int| 0 <= i < h1.len() ==> h2[i] == h1[i],
    ensures
        render_pairs(h2, pairs, fuel) == render_pairs(h1, pairs, fuel),
    decreases fuel, pairs.len() + 1,
{
    if pairs.len() > 0 {
        lemma_render_stable(h1, h2, pairs[0].0, fuel);
        lemma_render_stable(h1, h2, pairs[0].1, fuel);
        if pairs.len() > 1 {
            let rest = pairs.drop_first();
            assert forall|j: int|
                0 <= j < rest.len() implies valid_value(h1, (#[trigger] rest[j]).0) && valid_value(
                h1,
                rest[j].1,
            ) by {
                assert(rest[j] == pairs[j + 1]);
            }
            lemma_render_pairs_stable(h1, h2, rest, fuel);
        }
    }
}

impl MrbObject {
    /// Render this heap object to its text.
    pub fn inspect(&self, state: &MrbState) -> (r: String)
        requires
            state.wf(),
            self.0.id < state.heap@.len(),
        ensures
            r@ == render_value(state.heap@, MrbValue::Obj(self.0)),
    {
        inspect_value(state, MrbValue::Obj(self.0))
    }
}

} // verus!
