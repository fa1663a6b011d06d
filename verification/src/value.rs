//! The value codec: conversion between typed script values, which may
//! hold remote-object references at any depth, and their wire form,
//! where a reference appears as a single-entry object keyed by the
//! protocol's reserved sentinel string.

use vstd::prelude::*;
use vstd::string::StringExecFns;

use crate::json::Json;
use crate::json::JsonV;
use crate::json::json_view;
use crate::request::SessionId;

verus! {

/// The protocol's reserved key marking a single-entry object as an
/// element reference. Fixed and versioned by the wire protocol.
pub const ELEMENT_KEY: &'static str = "element-6066-11e4-a52e-4f735466cecf";

/// The reserved key marking a single-entry object as a shadow-root
/// reference.
pub const SHADOW_ROOT_KEY: &'static str = "shadow-6066-11e4-a52e-4f735466cecf";

/// The reserved key marking a single-entry object as a window
/// reference.
pub const WINDOW_KEY: &'static str = "window-fcc6-11e5-b4f8-330a88ab9d7f";

/// What kind of remote object a reference designates.
#[derive(Clone, Copy, Debug, PartialEq, Eq, Structural)]
pub enum RefKind {
    Element,
    ShadowRoot,
    Window,
}

/// The sentinel key under which a reference of the given kind travels.
pub open spec fn spec_sentinel_key(kind: RefKind) -> Seq<char> {
    match kind {
        RefKind::Element => ELEMENT_KEY@,
        RefKind::ShadowRoot => SHADOW_ROOT_KEY@,
        RefKind::Window => WINDOW_KEY@,
    }
}

/// The sentinel key for a reference kind.
pub fn sentinel_key(kind: RefKind) -> (r: &'static str)
    ensures
        r@ == spec_sentinel_key(kind),
{
    match kind {
        RefKind::Element => ELEMENT_KEY,
        RefKind::ShadowRoot => SHADOW_ROOT_KEY,
        RefKind::Window => WINDOW_KEY,
    }
}

/// An opaque handle to a live object in the remote document. The client
/// holds it weakly: the server may invalidate the object at any time,
/// and no validity check happens before the handle is used.
#[derive(Debug, PartialEq, Eq)]
pub struct RemoteRef {
    /// The session the handle is bound to.
    pub session: String,
    /// The server-issued reference string.
    pub handle: String,
    /// What kind of remote object the handle designates.
    pub kind: RefKind,
}

/// The mathematical shape of a [`RemoteRef`].
#[verifier::ext_equal]
pub struct RemoteRefV {
    pub session: Seq<char>,
    pub handle: Seq<char>,
    pub kind: RefKind,
}

impl View for RemoteRef {
    type V = RemoteRefV;

    open spec fn view(&self) -> RemoteRefV {
        RemoteRefV { session: self.session@, handle: self.handle@, kind: self.kind }
    }
}

impl RemoteRef {
    /// Two handles denote the same remote object when their reference
    /// strings agree within the same session.
    pub fn same_as(&self, other: &RemoteRef) -> (r: bool)
        ensures
            r == (self@.session == other@.session && self@.handle == other@.handle),
    {
        self.session == other.session && self.handle == other.handle
    }
}

/// A typed value handed to, or decoded from, remote script execution:
/// an ordinary JSON tree in which remote references stand as first-class
/// leaves rather than as their wire encoding.
#[derive(Debug, PartialEq, Eq)]
pub enum WebValue {
    Null,
    Bool(bool),
    Int(i64),
    Str(String),
    Array(Vec<WebValue>),
    Object(Vec<(String, WebValue)>),
    Ref(RemoteRef),
}

/// The mathematical shape of a [`WebValue`].
#[verifier::ext_equal]
pub enum WebValueV {
    Null,
    Bool(bool),
    Int(int),
    Str(Seq<char>),
    Arr(Seq<WebValueV>),
    Obj(Seq<(Seq<char>, WebValueV)>),
    Ref(RemoteRefV),
}

/// The shape of a typed value, references included.
pub open spec fn value_view(v: WebValue) -> WebValueV
    decreases v,
{
    match v {
        WebValue::Null => WebValueV::Null,
        WebValue::Bool(b) => WebValueV::Bool(b),
        WebValue::Int(n) => WebValueV::Int(n as int),
        WebValue::Str(s) => WebValueV::Str(s@),
        WebValue::Array(a) => WebValueV::Arr(
            Seq::new(
                a@.len(),
                |i: int|
                    if 0 <= i < a@.len() {
                        value_view(a@[i])
                    } else {
                        WebValueV::Null
                    },
            ),
        ),
        WebValue::Object(m) => WebValueV::Obj(
            Seq::new(
                m@.len(),
                |i: int|
                    if 0 <= i < m@.len() {
                        (m@[i].0@, value_view(m@[i].1))
                    } else {
                        (Seq::empty(), WebValueV::Null)
                    },
            ),
        ),
        WebValue::Ref(r) => WebValueV::Ref(r@),
    }
}

impl View for WebValue {
    type V = WebValueV;

    open spec fn view(&self) -> WebValueV {
        value_view(*self)
    }
}

impl WebValue {
    /// The integer a decoded result holds, when it is one.
    pub fn as_int(&self) -> (r: Option<i64>)
        ensures
            r is Some <==> self@ is Int,
            r is Some ==> r->0 as int == self@->Int_0,
    {
        match self {
            WebValue::Int(n) => Some(*n),
            _ => None,
        }
    }

    /// The boolean a decoded result holds, when it is one.
    pub fn as_bool(&self) -> (r: Option<bool>)
        ensures
            r is Some <==> self@ is Bool,
            r is Some ==> r->0 == self@->Bool_0,
    {
        match self {
            WebValue::Bool(b) => Some(*b),
            _ => None,
        }
    }

    /// The string a decoded result holds, when it is one.
    pub fn as_str(&self) -> (r: Option<&String>)
        ensures
            r is Some <==> self@ is Str,
            r is Some ==> r->0@ == self@->Str_0,
    {
        match self {
            WebValue::Str(s) => Some(s),
            _ => None,
        }
    }

    /// The reference handle a decoded result holds, when it is one.
    pub fn as_ref_handle(&self) -> (r: Option<&RemoteRef>)
        ensures
            r is Some <==> self@ is Ref,
            r is Some ==> r->0@ == self@->Ref_0,
    {
        match self {
            WebValue::Ref(h) => Some(h),
            _ => None,
        }
    }
}

/// Whether a wire object's entries form exactly the shape of an encoded
/// reference: one single entry, keyed by a sentinel string, whose value
/// is a string. An extra or missing entry, a differently spelled key, or
/// a non-string value all fail this test.
pub open spec fn ref_shape(entries: Seq<(Seq<char>, JsonV)>) -> bool {
    &&& entries.len() == 1
    &&& (entries[0].0 == ELEMENT_KEY@ || entries[0].0 == SHADOW_ROOT_KEY@ || entries[0].0
        == WINDOW_KEY@)
    &&& entries[0].1 is Str
}

/// The wire form of a typed value: every reference leaf becomes a
/// single-entry sentinel object; everything else is kept structurally
/// unchanged.
pub open spec fn encode_wire(v: WebValueV) -> JsonV
    decreases v,
{
    match v {
        WebValueV::Null => JsonV::Null,
        WebValueV::Bool(b) => JsonV::Bool(b),
        WebValueV::Int(n) => JsonV::Int(n),
        WebValueV::Str(s) => JsonV::Str(s),
        WebValueV::Arr(a) => JsonV::Arr(
            Seq::new(
                a.len(),
                |i: int|
                    if 0 <= i < a.len() {
                        encode_wire(a[i])
                    } else {
                        JsonV::Null
                    },
            ),
        ),
        WebValueV::Obj(m) => JsonV::Obj(
            Seq::new(
                m.len(),
                |i: int|
                    if 0 <= i < m.len() {
                        (m[i].0, encode_wire(m[i].1))
                    } else {
                        (Seq::empty(), JsonV::Null)
                    },
            ),
        ),
        WebValueV::Ref(r) => JsonV::Obj(
            seq![(spec_sentinel_key(r.kind), JsonV::Str(r.handle))],
        ),
    }
}

/// The typed form of a wire tree: every object consisting of exactly a
/// sentinel entry becomes a reference bound to the given session;
/// everything else is kept structurally unchanged. Decoding is purely
/// structural: no check is made that the reference is still live.
pub open spec fn decode_wire(j: JsonV, session: Seq<char>) -> WebValueV
    decreases j,
{
    match j {
        JsonV::Null => WebValueV::Null,
        JsonV::Bool(b) => WebValueV::Bool(b),
        JsonV::Int(n) => WebValueV::Int(n),
        JsonV::Str(s) => WebValueV::Str(s),
        JsonV::Arr(a) => WebValueV::Arr(
            Seq::new(
                a.len(),
                |i: int|
                    if 0 <= i < a.len() {
                        decode_wire(a[i], session)
                    } else {
                        WebValueV::Null
                    },
            ),
        ),
        JsonV::Obj(m) => if ref_shape(m) {
            WebValueV::Ref(
                RemoteRefV {
                    session,
                    handle: m[0].1->Str_0,
                    kind: if m[0].0 == ELEMENT_KEY@ {
                        RefKind::Element
                    } else if m[0].0 == SHADOW_ROOT_KEY@ {
                        RefKind::ShadowRoot
                    } else {
                        RefKind::Window
                    },
                },
            )
        } else {
            WebValueV::Obj(
                Seq::new(
                    m.len(),
                    |i: int|
                        if 0 <= i < m.len() {
                            (m[i].0, decode_wire(m[i].1, session))
                        } else {
                            (Seq::empty(), WebValueV::Null)
                        },
                ),
            )
        },
    }
}

/// The wire form of a sequence of script arguments: each argument
/// encoded, gathered into a wire array.
pub open spec fn encode_values_wire(s: Seq<WebValue>) -> JsonV {
    JsonV::Arr(
        Seq::new(
            s.len(),
            |i: int|
                if 0 <= i < s.len() {
                    encode_wire(value_view(s[i]))
                } else {
                    JsonV::Null
                },
        ),
    )
}

/// The two sentinel keys spell differently, so the kind of a decoded
/// reference is never ambiguous.
pub proof fn lemma_sentinel_keys_differ()
    ensures
        ELEMENT_KEY@ != SHADOW_ROOT_KEY@,
        ELEMENT_KEY@ != WINDOW_KEY@,
        SHADOW_ROOT_KEY@ != WINDOW_KEY@,
{
    reveal_strlit("element-6066-11e4-a52e-4f735466cecf");
    reveal_strlit("shadow-6066-11e4-a52e-4f735466cecf");
    reveal_strlit("window-fcc6-11e5-b4f8-330a88ab9d7f");
    assert(ELEMENT_KEY@.len() == 35);
    assert(SHADOW_ROOT_KEY@.len() == 34);
    assert(WINDOW_KEY@.len() == 34);
    assert(SHADOW_ROOT_KEY@[0] != WINDOW_KEY@[0]);
}

/// Whether every object node of `v` differs from the shape of an
/// encoded reference, so that encoding `v` puts no plain object where a
/// decoder would read a reference back.
pub open spec fn canonical(v: WebValueV) -> bool
    decreases v,
{
    match v {
        WebValueV::Arr(a) => forall|i: int| 0 <= i < a.len() ==> canonical(#[trigger] a[i]),
        WebValueV::Obj(m) => {
            &&& !(m.len() == 1 && (m[0].0 == ELEMENT_KEY@ || m[0].0 == SHADOW_ROOT_KEY@ || m[0].0
                == WINDOW_KEY@) && m[0].1 is Str)
            &&& forall|i: int| 0 <= i < m.len() ==> canonical(#[trigger] m[i].1)
        },
        _ => true,
    }
}

/// Whether every reference inside `v` is bound to `session`.
pub open spec fn bound_to(v: WebValueV, session: Seq<char>) -> bool
    decreases v,
{
    match v {
        WebValueV::Arr(a) => forall|i: int| 0 <= i < a.len() ==> bound_to(#[trigger] a[i], session),
        WebValueV::Obj(m) => forall|i: int|
            0 <= i < m.len() ==> bound_to(#[trigger] m[i].1, session),
        WebValueV::Ref(r) => r.session == session,
        _ => true,
    }
}

/// Re-encoding a decoded wire tree reproduces it exactly, whatever mix
/// of sentinel objects and ordinary JSON it held, at any depth.
pub proof fn lemma_encode_after_decode(j: JsonV, session: Seq<char>)
    ensures
        encode_wire(decode_wire(j, session)) == j,
    decreases j,
{
    let d = decode_wire(j, session);
    let e = encode_wire(d);
    match j {
        JsonV::Arr(a) => {
            assert forall|i: int| 0 <= i < a.len() implies #[trigger] e->Arr_0[i] == a[i] by {
                assert(d->Arr_0[i] == decode_wire(a[i], session));
                assert(e->Arr_0[i] == encode_wire(d->Arr_0[i]));
                lemma_encode_after_decode(a[i], session);
            }
            assert(e->Arr_0 =~= a);
        },
        JsonV::Obj(m) => {
            if ref_shape(m) {
                assert(e->Obj_0 =~= m);
            } else {
                assert forall|i: int| 0 <= i < m.len() implies #[trigger] e->Obj_0[i] == m[i] by {
                    assert(d->Obj_0[i] == (m[i].0, decode_wire(m[i].1, session)));
                    assert(e->Obj_0[i] == (d->Obj_0[i].0, encode_wire(d->Obj_0[i].1)));
                    lemma_encode_after_decode(m[i].1, session);
                }
                assert(e->Obj_0 =~= m);
            }
        },
        _ => {},
    }
}

/// Decoding an encoded value reproduces it exactly, provided its plain
/// objects never mimic the sentinel shape and its references are bound
/// to the decoding session.
pub proof fn lemma_decode_after_encode(v: WebValueV, session: Seq<char>)
    requires
        canonical(v),
        bound_to(v, session),
    ensures
        decode_wire(encode_wire(v), session) == v,
    decreases v,
{
    let e = encode_wire(v);
    let d = decode_wire(e, session);
    match v {
        WebValueV::Arr(a) => {
            assert forall|i: int| 0 <= i < a.len() implies #[trigger] d->Arr_0[i] == a[i] by {
                assert(e->Arr_0[i] == encode_wire(a[i]));
                assert(d->Arr_0[i] == decode_wire(e->Arr_0[i], session));
                lemma_decode_after_encode(a[i], session);
            }
            assert(d->Arr_0 =~= a);
        },
        WebValueV::Obj(m) => {
            let em = e->Obj_0;
            assert(em.len() == m.len());
            assert forall|i: int| 0 <= i < m.len() implies #[trigger] em[i] == (
                m[i].0,
                encode_wire(m[i].1),
            ) by {
            }
            if m.len() == 1 && (m[0].0 == ELEMENT_KEY@ || m[0].0 == SHADOW_ROOT_KEY@ || m[0].0
                == WINDOW_KEY@) {
                assert(!(m[0].1 is Str));
                assert(em[0].1 == encode_wire(m[0].1));
                assert(!(em[0].1 is Str)) by {
                    match m[0].1 {
                        WebValueV::Str(_) => {
                            assert(false);
                        },
                        _ => {},
                    }
                }
            }
            assert(!ref_shape(em));
            assert forall|i: int| 0 <= i < m.len() implies #[trigger] d->Obj_0[i] == m[i] by {
                assert(d->Obj_0[i] == (em[i].0, decode_wire(em[i].1, session)));
                lemma_decode_after_encode(m[i].1, session);
            }
            assert(d->Obj_0 =~= m);
        },
        WebValueV::Ref(r) => {
            lemma_sentinel_keys_differ();
            assert(ref_shape(e->Obj_0));
            assert(d == v);
        },
        _ => {},
    }
}

/// An object decodes as a reference exactly when it is a pure sentinel
/// object: one entry, the reserved key spelled precisely, a string
/// value. An extra entry, another spelling or a non-string value makes
/// it an ordinary object.
pub proof fn lemma_decode_ref_exactly_on_sentinel_shape(
    entries: Seq<(Seq<char>, JsonV)>,
    session: Seq<char>,
)
    ensures
        decode_wire(JsonV::Obj(entries), session) is Ref <==> ref_shape(entries),
{
}

/// Whatever tree arrives on the wire, its decoded form is canonical and
/// bound to the decoding session, so it round-trips through
/// [`lemma_decode_after_encode`].
pub proof fn lemma_decode_canonical(j: JsonV, session: Seq<char>)
    ensures
        canonical(decode_wire(j, session)),
        bound_to(decode_wire(j, session), session),
    decreases j,
{
    let d = decode_wire(j, session);
    match j {
        JsonV::Arr(a) => {
            let da = d->Arr_0;
            assert forall|i: int| 0 <= i < da.len() implies canonical(#[trigger] da[i]) && bound_to(
                da[i],
                session,
            ) by {
                assert(da[i] == decode_wire(a[i], session));
                lemma_decode_canonical(a[i], session);
            }
        },
        JsonV::Obj(m) => {
            if !ref_shape(m) {
                let dm = d->Obj_0;
                assert(dm.len() == m.len());
                assert forall|i: int| 0 <= i < dm.len() implies canonical(#[trigger] dm[i].1)
                    && bound_to(dm[i].1, session) by {
                    assert(dm[i] == (m[i].0, decode_wire(m[i].1, session)));
                    lemma_decode_canonical(m[i].1, session);
                }
                if dm.len() == 1 && (dm[0].0 == ELEMENT_KEY@ || dm[0].0 == SHADOW_ROOT_KEY@
                    || dm[0].0 == WINDOW_KEY@) {
                    assert(dm[0] == (m[0].0, decode_wire(m[0].1, session)));
                    assert(!(m[0].1 is Str));
                    assert(!(dm[0].1 is Str)) by {
                        match m[0].1 {
                            JsonV::Str(_) => {
                                assert(false);
                            },
                            _ => {},
                        }
                    }
                }
                assert(canonical(d));
                assert(bound_to(d, session));
            }
        },
        _ => {},
    }
}

/// Whether `a` holds the same characters as the literal `b`.
pub(crate) fn string_eq_str(a: &String, b: &str) -> (r: bool)
    ensures
        r == (a@ == b@),
{
    let bs = String::from_str(b);
    *a == bs
}

/// Rewrites every reference leaf of `v` into its sentinel-object wire
/// form; scalars, arrays and plain objects pass through unchanged.
#[verifier::loop_isolation(false)]
pub fn encode_value(v: &WebValue) -> (r: Json)
    ensures
        r@ == encode_wire(v@),
    decreases *v,
{
    match v {
        WebValue::Null => Json::Null,
        WebValue::Bool(b) => Json::Bool(*b),
        WebValue::Int(n) => Json::Int(*n),
        WebValue::Str(s) => Json::Str(s.clone()),
        WebValue::Array(a) => {
            let mut out: Vec<Json> = Vec::new();
            let mut i: usize = 0;
            while i < a.len()
                invariant
                    i <= a@.len(),
                    out@.len() == i,
                    forall|k: int| 0 <= k < i ==> out@[k]@ == encode_wire(a@[k]@),
                decreases a@.len() - i,
            {
                out.push(encode_value(&a[i]));
                i = i + 1;
            }
            let r = Json::Array(out);
            proof {
                assert(r@ is Arr && encode_wire(v@) is Arr);
                assert(r@->Arr_0 =~~= encode_wire(v@)->Arr_0);
                assert(r@ =~~= encode_wire(v@));
            }
            r
        },
        WebValue::Object(m) => {
            let mut out: Vec<(String, Json)> = Vec::new();
            let mut i: usize = 0;
            while i < m.len()
                invariant
                    i <= m@.len(),
                    out@.len() == i,
                    forall|k: int| 0 <= k < i ==> out@[k].0@ == m@[k].0@ && out@[k].1@
                        == encode_wire(m@[k].1@),
                decreases m@.len() - i,
            {
                let entry = &m[i];
                out.push((entry.0.clone(), encode_value(&entry.1)));
                i = i + 1;
            }
            let r = Json::Object(out);
            proof {
                assert(r@ is Obj && encode_wire(v@) is Obj);
                assert(r@->Obj_0 =~~= encode_wire(v@)->Obj_0);
                assert(r@ =~~= encode_wire(v@));
            }
            r
        },
        WebValue::Ref(rr) => {
            let mut entries: Vec<(String, Json)> = Vec::new();
            entries.push((String::from_str(sentinel_key(rr.kind)), Json::Str(rr.handle.clone())));
            let r = Json::Object(entries);
            proof {
                reveal_with_fuel(json_view, 2);
                let e = encode_wire(v@);
                assert(r@ is Obj && e is Obj);
                assert(r@->Obj_0.len() == 1 && e->Obj_0.len() == 1);
                assert(r@->Obj_0[0].0 == spec_sentinel_key(rr.kind));
                assert(r@->Obj_0[0].1 == JsonV::Str(rr.handle@));
                assert(e->Obj_0[0].0 == spec_sentinel_key(rr@.kind));
                assert(e->Obj_0[0].1 == JsonV::Str(rr@.handle));
                assert(r@->Obj_0 =~~= e->Obj_0);
                assert(r@ =~~= e);
            }
            r
        },
    }
}

/// Encodes a slice of script arguments into the wire array sent under
/// the protocol's argument field.
pub fn encode_values(args: &Vec<WebValue>) -> (r: Json)
    ensures
        r@ == encode_values_wire(args@),
{
    let mut out: Vec<Json> = Vec::new();
    let mut i: usize = 0;
    while i < args.len()
        invariant
            i <= args@.len(),
            out@.len() == i,
            forall|k: int| 0 <= k < i ==> out@[k]@ == encode_wire(args@[k]@),
        decreases args@.len() - i,
    {
        out.push(encode_value(&args[i]));
        i = i + 1;
    }
    let r = Json::Array(out);
    proof {
        assert(r@ is Arr && encode_values_wire(args@) is Arr);
        assert(r@->Arr_0 =~~= encode_values_wire(args@)->Arr_0);
        assert(r@ =~~= encode_values_wire(args@));
    }
    r
}

/// Walks a received wire tree and resolves every pure sentinel object
/// into a reference handle bound to `session`; everything else decodes
/// as ordinary JSON. Never fails: handle validity is the server's
/// business and only surfaces on first use.
#[verifier::loop_isolation(false)]
pub fn decode_value(j: &Json, session: &SessionId) -> (r: WebValue)
    ensures
        r@ == decode_wire(j@, session@),
    decreases *j,
{
    match j {
        Json::Null => WebValue::Null,
        Json::Bool(b) => WebValue::Bool(*b),
        Json::Int(n) => WebValue::Int(*n),
        Json::Str(s) => WebValue::Str(s.clone()),
        Json::Array(a) => {
            let mut out: Vec<WebValue> = Vec::new();
            let mut i: usize = 0;
            while i < a.len()
                invariant
                    i <= a@.len(),
                    out@.len() == i,
                    forall|k: int| 0 <= k < i ==> out@[k]@ == decode_wire(a@[k]@, session@),
                decreases a@.len() - i,
            {
                out.push(decode_value(&a[i], session));
                i = i + 1;
            }
            let r = WebValue::Array(out);
            proof {
                assert(r@ is Arr && decode_wire(j@, session@) is Arr);
                assert(r@->Arr_0 =~~= decode_wire(j@, session@)->Arr_0);
                assert(r@ =~~= decode_wire(j@, session@));
            }
            r
        },
        Json::Object(m) => {
            if m.len() == 1 {
                let entry = &m[0];
                let is_elem = string_eq_str(&entry.0, ELEMENT_KEY);
                let is_shadow = string_eq_str(&entry.0, SHADOW_ROOT_KEY);
                let is_window = string_eq_str(&entry.0, WINDOW_KEY);
                if is_elem || is_shadow || is_window {
                    if let Json::Str(h) = &entry.1 {
                        let kind = if is_elem {
                            RefKind::Element
                        } else if is_shadow {
                            RefKind::ShadowRoot
                        } else {
                            RefKind::Window
                        };
                        let rr = WebValue::Ref(
                            RemoteRef { session: session.id.clone(), handle: h.clone(), kind },
                        );
                        proof {
                            assert(m@[0] == *entry);
                            assert(m@[0].1 is Str);
                            assert(j@->Obj_0[0].1 == json_view(m@[0].1));
                            assert(json_view(m@[0].1) is Str);
                            assert(ref_shape(j@->Obj_0));
                            assert(rr@ =~~= decode_wire(j@, session@));
                        }
                        return rr;
                    }
                }
            }
            proof {
                assert(!ref_shape(j@->Obj_0));
            }
            let mut out: Vec<(String, WebValue)> = Vec::new();
            let mut i: usize = 0;
            while i < m.len()
                invariant
                    i <= m@.len(),
                    out@.len() == i,
                    forall|k: int| 0 <= k < i ==> out@[k].0@ == m@[k].0@ && out@[k].1@
                        == decode_wire(m@[k].1@, session@),
                decreases m@.len() - i,
            {
                let entry = &m[i];
                out.push((entry.0.clone(), decode_value(&entry.1, session)));
                i = i + 1;
            }
            let r = WebValue::Object(out);
            proof {
                assert(r@ is Obj && decode_wire(j@, session@) is Obj);
                assert(r@->Obj_0 =~~= decode_wire(j@, session@)->Obj_0);
                assert(r@ =~~= decode_wire(j@, session@));
            }
            r
        },
    }
}

} // verus!
