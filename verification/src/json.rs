//! The JSON data model and the path flattener.
//!
//! A parsed JSON document is reduced to what the policy engine reads: object
//! structure, array structure, and string scalars. `flatten` walks such a
//! value depth first and emits one dotted path per object key it reaches;
//! arrays are transparent (no index segment is emitted).

use vstd::prelude::*;

verus! {

/// A parsed JSON value. Numbers, booleans and null all flatten identically
/// (they contribute no paths), so they share the `Scalar` variant; strings
/// keep their text because configuration extraction reads it.
pub enum JsonValue {
    /// An object: its key-value pairs, in the order the parser handed them over.
    Object(Vec<(String, JsonValue)>),
    /// An array: its elements in order.
    Array(Vec<JsonValue>),
    /// A string scalar.
    Text(String),
    /// Any other scalar: a number, a boolean, or null.
    Scalar,
}

/// The view of a sequence of strings as a sequence of character sequences.
pub open spec fn strings_view(ss: Seq<String>) -> Seq<Seq<char>> {
    ss.map_values(|s: String| s@)
}

/// The dotted path of `key` under `prefix`: `key` itself at the root,
/// `prefix.key` below it.
pub open spec fn spec_join(prefix: Seq<char>, key: Seq<char>) -> Seq<char> {
    if prefix.len() == 0 {
        key
    } else {
        prefix + seq!['.'] + key
    }
}

/// The flattened paths of `v` under `prefix`: for an object, each key's
/// dotted path followed by the paths of the value under it; for an array,
/// the paths of every element under the unchanged prefix; nothing for a
/// scalar.
pub open spec fn spec_flatten(v: JsonValue, prefix: Seq<char>) -> Seq<Seq<char>>
    decreases v, 0int,
{
    match v {
        JsonValue::Object(fields) => spec_flatten_fields(fields@, prefix, 0),
        JsonValue::Array(elems) => spec_flatten_elems(elems@, prefix, 0),
        JsonValue::Text(_) => Seq::empty(),
        JsonValue::Scalar => Seq::empty(),
    }
}

/// The flattened paths contributed by the object fields `fields[i..]`.
pub open spec fn spec_flatten_fields(
    fields: Seq<(String, JsonValue)>,
    prefix: Seq<char>,
    i: int,
) -> Seq<Seq<char>>
    decreases fields, fields.len() - i,
{
    if i < 0 || i >= fields.len() {
        Seq::empty()
    } else {
        let key = spec_join(prefix, fields[i].0@);
        seq![key] + spec_flatten(fields[i].1, key) + spec_flatten_fields(fields, prefix, i + 1)
    }
}

/// The flattened paths contributed by the array elements `elems[i..]`.
pub open spec fn spec_flatten_elems(elems: Seq<JsonValue>, prefix: Seq<char>, i: int) -> Seq<
    Seq<char>,
>
    decreases elems, elems.len() - i,
{
    if i < 0 || i >= elems.len() {
        Seq::empty()
    } else {
        spec_flatten(elems[i], prefix) + spec_flatten_elems(elems, prefix, i + 1)
    }
}

/// Flattening is a pure function of the value and the prefix: any two
/// results obtained from equal inputs hold the same paths, in order and as
/// sets.
pub proof fn lemma_flatten_pure(
    r1: Seq<Seq<char>>,
    r2: Seq<Seq<char>>,
    v: JsonValue,
    prefix: Seq<char>,
)
    requires
        r1 == spec_flatten(v, prefix),
        r2 == spec_flatten(v, prefix),
    ensures
        r1 == r2,
        r1.to_set() == r2.to_set(),
{
}

proof fn lemma_strings_view_concat(a: Seq<String>, b: Seq<String>)
    ensures
        strings_view(a + b) == strings_view(a) + strings_view(b),
{
    assert(strings_view(a + b) =~= strings_view(a) + strings_view(b));
}

/// Joins `key` onto `prefix` with a dot, or returns `key` alone at the root.
pub fn join_path(prefix: &str, key: &str) -> (r: String)
    ensures
        r@ == spec_join(prefix@, key@),
{
    if prefix.is_empty() {
        key.to_owned()
    } else {
        proof {
            reveal_strlit(".");
            assert("."@ =~= seq!['.']);
        }
        let mut s = prefix.to_owned();
        s.append(".");
        s.append(key);
        proof {
            assert(s@ =~= spec_join(prefix@, key@));
        }
        s
    }
}

/// Flattens `v` into the dotted paths of every object key reachable from it,
/// each under `prefix`, in depth-first order. Arrays are walked with the
/// unchanged prefix; scalars contribute nothing.
#[verifier::loop_isolation(false)]
pub fn flatten(v: &JsonValue, prefix: &str) -> (r: Vec<String>)
    ensures
        strings_view(r@) == spec_flatten(*v, prefix@),
    decreases *v,
{
    match v {
        JsonValue::Object(fields) => {
            let mut out: Vec<String> = Vec::new();
            assert(strings_view(out@) =~= Seq::<Seq<char>>::empty());
            let mut i: usize = 0;
            while i < fields.len()
                invariant
                    i <= fields@.len(),
                    spec_flatten_fields(fields@, prefix@, 0) == strings_view(out@)
                        + spec_flatten_fields(fields@, prefix@, i as int),
                decreases fields@.len() - i,
            {
                let key = join_path(prefix, fields[i].0.as_str());
                let ghost out0 = out@;
                out.push(key.clone());
                proof {
                    assert(*fields == v->Object_0);
                    assert(decreases_to!(*v => v->Object_0));
                    assert(decreases_to!(*fields => fields@));
                    assert(decreases_to!(fields@ => fields@[i as int]));
                    assert(decreases_to!(fields@[i as int] => fields@[i as int].1));
                }
                let mut sub = flatten(&fields[i].1, key.as_str());
                let ghost sub0 = sub@;
                out.append(&mut sub);
                proof {
                    lemma_strings_view_concat(out0.push(key), sub0);
                    lemma_strings_view_concat(out0, seq![key]);
                    assert(out0.push(key) =~= out0 + seq![key]);
                    assert(strings_view(seq![key]) =~= seq![key@]);
                    assert(strings_view(out@) + spec_flatten_fields(fields@, prefix@, i + 1)
                        =~= strings_view(out0) + spec_flatten_fields(fields@, prefix@, i as int));
                }
                i += 1;
            }
            proof {
                assert(strings_view(out@) + spec_flatten_fields(fields@, prefix@, i as int)
                    =~= strings_view(out@));
            }
            out
        },
        JsonValue::Array(elems) => {
            let mut out: Vec<String> = Vec::new();
            assert(strings_view(out@) =~= Seq::<Seq<char>>::empty());
            let mut i: usize = 0;
            while i < elems.len()
                invariant
                    i <= elems@.len(),
                    spec_flatten_elems(elems@, prefix@, 0) == strings_view(out@)
                        + spec_flatten_elems(elems@, prefix@, i as int),
                decreases elems@.len() - i,
            {
                let ghost out0 = out@;
                proof {
                    assert(*elems == v->Array_0);
                    assert(decreases_to!(*v => v->Array_0));
                    assert(decreases_to!(*elems => elems@));
                    assert(decreases_to!(elems@ => elems@[i as int]));
                }
                let mut sub = flatten(&elems[i], prefix);
                let ghost sub0 = sub@;
                out.append(&mut sub);
                proof {
                    lemma_strings_view_concat(out0, sub0);
                    assert(strings_view(out@) + spec_flatten_elems(elems@, prefix@, i + 1)
                        =~= strings_view(out0) + spec_flatten_elems(elems@, prefix@, i as int));
                }
                i += 1;
            }
            proof {
                assert(strings_view(out@) + spec_flatten_elems(elems@, prefix@, i as int)
                    =~= strings_view(out@));
            }
            out
        },
        JsonValue::Text(_) => {
            let out: Vec<String> = Vec::new();
            assert(strings_view(out@) =~= Seq::<Seq<char>>::empty());
            out
        },
        JsonValue::Scalar => {
            let out: Vec<String> = Vec::new();
            assert(strings_view(out@) =~= Seq::<Seq<char>>::empty());
            out
        },
    }
}

} // verus!
