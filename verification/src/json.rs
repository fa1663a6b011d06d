//! The protocol's JSON representation, as a tagged tree the verifier can
//! reason about: objects keep their entries in order, numbers are the
//! integers the protocol actually exchanges (durations, counts, ids).

use vstd::prelude::*;
use vstd::string::StringExecFns;

verus! {

/// A JSON tree as exchanged over the wire protocol.
#[derive(Debug, PartialEq, Eq)]
pub enum Json {
    Null,
    Bool(bool),
    Int(i64),
    Str(String),
    Array(Vec<Json>),
    Object(Vec<(String, Json)>),
}

/// The mathematical shape of a [`Json`] tree, used by every contract.
#[verifier::ext_equal]
pub enum JsonV {
    Null,
    Bool(bool),
    Int(int),
    Str(Seq<char>),
    Arr(Seq<JsonV>),
    Obj(Seq<(Seq<char>, JsonV)>),
}

/// The shape of a tree: scalars as themselves, arrays and objects as
/// sequences of the shapes of their parts.
pub open spec fn json_view(j: Json) -> JsonV
    decreases j,
{
    match j {
        Json::Null => JsonV::Null,
        Json::Bool(b) => JsonV::Bool(b),
        Json::Int(n) => JsonV::Int(n as int),
        Json::Str(s) => JsonV::Str(s@),
        Json::Array(a) => JsonV::Arr(
            Seq::new(
                a@.len(),
                |i: int|
                    if 0 <= i < a@.len() {
                        json_view(a@[i])
                    } else {
                        JsonV::Null
                    },
            ),
        ),
        Json::Object(m) => JsonV::Obj(
            Seq::new(
                m@.len(),
                |i: int|
                    if 0 <= i < m@.len() {
                        (m@[i].0@, json_view(m@[i].1))
                    } else {
                        (Seq::empty(), JsonV::Null)
                    },
            ),
        ),
    }
}

impl View for Json {
    type V = JsonV;

    open spec fn view(&self) -> JsonV {
        json_view(*self)
    }
}

impl Json {
    /// A structurally identical copy of the tree.
    #[verifier::loop_isolation(false)]
    pub fn deep_clone(&self) -> (r: Json)
        ensures
            r@ == self@,
        decreases *self,
    {
        match self {
            Json::Null => Json::Null,
            Json::Bool(b) => Json::Bool(*b),
            Json::Int(n) => Json::Int(*n),
            Json::Str(s) => Json::Str(s.clone()),
            Json::Array(a) => {
                let mut out: Vec<Json> = Vec::new();
                let mut i: usize = 0;
                while i < a.len()
                    invariant
                        i <= a@.len(),
                        out@.len() == i,
                        forall|k: int| 0 <= k < i ==> out@[k]@ == a@[k]@,
                    decreases a@.len() - i,
                {
                    out.push(a[i].deep_clone());
                    i = i + 1;
                }
                let r = Json::Array(out);
                proof {
                    assert(r@ is Arr && self@ is Arr);
                    assert(r@->Arr_0 =~~= self@->Arr_0);
                    assert(r@ =~~= self@);
                }
                r
            },
            Json::Object(m) => {
                let mut out: Vec<(String, Json)> = Vec::new();
                let mut i: usize = 0;
                while i < m.len()
                    invariant
                        i <= m@.len(),
                        out@.len() == i,
                        forall|k: int| 0 <= k < i ==> out@[k].0@ == m@[k].0@ && out@[k].1@
                            == m@[k].1@,
                    decreases m@.len() - i,
                {
                    let entry = &m[i];
                    out.push((entry.0.clone(), entry.1.deep_clone()));
                    i = i + 1;
                }
                let r = Json::Object(out);
                proof {
                    assert(r@ is Obj && self@ is Obj);
                    assert(r@->Obj_0 =~~= self@->Obj_0);
                    assert(r@ =~~= self@);
                }
                r
            },
        }
    }
}

/// A one-entry JSON object.
pub fn obj1(k: &str, v: Json) -> (r: Json)
    ensures
        r@ == JsonV::Obj(seq![(k@, v@)]),
{
    let mut entries: Vec<(String, Json)> = Vec::new();
    entries.push((String::from_str(k), v));
    let r = Json::Object(entries);
    proof {
        assert(r@ is Obj);
        assert(r@->Obj_0 =~~= seq![(k@, (entries@[0].1)@)]);
        assert(r@ =~~= JsonV::Obj(seq![(k@, (entries@[0].1)@)]));
    }
    r
}

/// A two-entry JSON object, entries in the given order.
pub fn obj2(k1: &str, v1: Json, k2: &str, v2: Json) -> (r: Json)
    ensures
        r@ == JsonV::Obj(seq![(k1@, v1@), (k2@, v2@)]),
{
    let mut entries: Vec<(String, Json)> = Vec::new();
    entries.push((String::from_str(k1), v1));
    entries.push((String::from_str(k2), v2));
    let r = Json::Object(entries);
    proof {
        assert(r@ is Obj);
        assert(r@->Obj_0 =~~= seq![(k1@, (entries@[0].1)@), (k2@, (entries@[1].1)@)]);
        assert(r@ =~~= JsonV::Obj(seq![(k1@, (entries@[0].1)@), (k2@, (entries@[1].1)@)]));
    }
    r
}

} // verus!
