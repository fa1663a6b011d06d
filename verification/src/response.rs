//! Decoding of server responses: extraction of the protocol's `value`
//! field, typed results, and the distinct error kinds a caller can
//! inspect — a server-reported protocol error is not a decoding
//! mismatch, and neither is a transport failure.

use vstd::prelude::*;

use crate::json::Json;
use crate::json::JsonV;
use crate::json::json_view;
use crate::request::SessionId;
use crate::value::WebValue;
use crate::value::decode_wire;
use crate::value::decode_value;
use crate::value::string_eq_str;

verus! {

/// What a command can fail with. Nothing is recovered locally: every
/// kind propagates to the caller, inspectable and distinct.
#[derive(Debug, PartialEq, Eq)]
pub enum WebDriverError {
    /// A syntactically valid response encoding a server-side error,
    /// carrying the server's error code and message. This is how a
    /// stale or unknown reference surfaces, on first use.
    Protocol { error: String, message: String },
    /// A response that cannot be read as the expected result shape: a
    /// client/server contract mismatch, not an operation failure.
    Decoding,
    /// A connection-level failure, propagated unchanged from the
    /// transport.
    Transport(String),
}

/// The server's readiness report.
#[derive(Debug, PartialEq, Eq)]
pub struct Status {
    pub ready: bool,
    pub message: String,
}

/// The first value stored under `key`, or `None` when no entry has
/// that key.
pub open spec fn spec_lookup(entries: Seq<(Seq<char>, JsonV)>, key: Seq<char>) -> Option<JsonV>
    decreases entries.len(),
{
    if entries.len() == 0 {
        None
    } else if entries[0].0 == key {
        Some(entries[0].1)
    } else {
        spec_lookup(entries.drop_first(), key)
    }
}

/// The payload a response stores under the protocol's `value` field,
/// when the response is an object that has one.
pub open spec fn spec_value_of(j: JsonV) -> Option<JsonV> {
    match j {
        JsonV::Obj(entries) => spec_lookup(entries, "value"@),
        _ => None,
    }
}

/// The view of an object's entry list.
pub open spec fn entries_of(m: Seq<(String, Json)>) -> Seq<(Seq<char>, JsonV)> {
    Seq::new(
        m.len(),
        |i: int|
            if 0 <= i < m.len() {
                (m[i].0@, json_view(m[i].1))
            } else {
                (Seq::empty(), JsonV::Null)
            },
    )
}

/// Finds the first entry of `m`, at or after `i`, whose key is `key`.
fn lookup_from<'a>(m: &'a Vec<(String, Json)>, key: &str, i: usize) -> (r: Option<&'a Json>)
    requires
        i <= m@.len(),
    ensures
        match r {
            Some(v) => spec_lookup(entries_of(m@).skip(i as int), key@) == Some(v@),
            None => spec_lookup(entries_of(m@).skip(i as int), key@) is None,
        },
    decreases m@.len() - i,
{
    if i == m.len() {
        proof {
            assert(entries_of(m@).skip(i as int) =~= Seq::empty());
        }
        None
    } else {
        let entry = &m[i];
        proof {
            assert(entries_of(m@).skip(i as int)[0] == entries_of(m@)[i as int]);
            assert(entries_of(m@).skip(i as int).drop_first() =~= entries_of(m@).skip(i as int + 1));
        }
        if string_eq_str(&entry.0, key) {
            Some(&entry.1)
        } else {
            lookup_from(m, key, i + 1)
        }
    }
}

/// Finds the first entry of `m` whose key is `key`.
fn lookup<'a>(m: &'a Vec<(String, Json)>, key: &str) -> (r: Option<&'a Json>)
    ensures
        match r {
            Some(v) => spec_lookup(entries_of(m@), key@) == Some(v@),
            None => spec_lookup(entries_of(m@), key@) is None,
        },
{
    proof {
        assert(entries_of(m@).skip(0) =~= entries_of(m@));
    }
    lookup_from(m, key, 0)
}

/// Decodes a success response: the tree under the `value` field, with
/// every sentinel object resolved into a handle bound to `session`. A
/// response without a `value` field is a decoding error — the caller's
/// contract with the server is broken, no protocol error was reported.
pub fn decode_value_response(body: &Json, session: &SessionId) -> (r: Result<
    WebValue,
    WebDriverError,
>)
    ensures
        r is Ok <==> spec_value_of(body@) is Some,
        r is Ok ==> r->Ok_0@ == decode_wire(spec_value_of(body@)->0, session@),
        r is Err ==> r->Err_0 is Decoding,
{
    match body {
        Json::Object(m) => {
            proof {
                assert(body@->Obj_0 =~= entries_of(m@));
            }
            match lookup(m, "value") {
                Some(v) => Ok(decode_value(v, session)),
                None => Err(WebDriverError::Decoding),
            }
        },
        _ => Err(WebDriverError::Decoding),
    }
}

/// Decodes an error response into the server's error code and message.
/// When even that shape is missing, the failure is a decoding mismatch,
/// not a protocol error.
pub fn decode_protocol_error(body: &Json) -> (e: WebDriverError)
    ensures
        ({
            let v = spec_value_of(body@);
            if v is Some && v->0 is Obj && (spec_lookup(v->0->Obj_0, "error"@) matches Some(
                JsonV::Str(_),
            )) && (spec_lookup(v->0->Obj_0, "message"@) matches Some(JsonV::Str(_))) {
                e matches WebDriverError::Protocol { error, message } && error@ == spec_lookup(
                    v->0->Obj_0,
                    "error"@,
                )->0->Str_0 && message@ == spec_lookup(v->0->Obj_0, "message"@)->0->Str_0
            } else {
                e is Decoding
            }
        }),
{
    if let Json::Object(m) = body {
        proof {
            assert(body@->Obj_0 =~= entries_of(m@));
        }
        if let Some(v) = lookup(m, "value") {
            if let Json::Object(vm) = v {
                proof {
                    assert(v@->Obj_0 =~= entries_of(vm@));
                }
                let err = lookup(vm, "error");
                let msg = lookup(vm, "message");
                if let (Some(Json::Str(err_s)), Some(Json::Str(msg_s))) = (err, msg) {
                    return WebDriverError::Protocol {
                        error: err_s.clone(),
                        message: msg_s.clone(),
                    };
                }
            }
        }
    }
    WebDriverError::Decoding
}

/// Decodes the readiness report: a `value` object carrying a boolean
/// `ready` flag and a `message` string. Anything else is a decoding
/// error.
pub fn decode_status(body: &Json) -> (r: Result<Status, WebDriverError>)
    ensures
        ({
            let v = spec_value_of(body@);
            &&& r is Ok <==> (v is Some && v->0 is Obj && (spec_lookup(v->0->Obj_0, "ready"@)
                matches Some(JsonV::Bool(_))) && (spec_lookup(v->0->Obj_0, "message"@)
                matches Some(JsonV::Str(_))))
            &&& r is Ok ==> r->Ok_0.ready == spec_lookup(v->0->Obj_0, "ready"@)->0->Bool_0
                && r->Ok_0.message@ == spec_lookup(v->0->Obj_0, "message"@)->0->Str_0
            &&& r is Err ==> r->Err_0 is Decoding
        }),
{
    if let Json::Object(m) = body {
        proof {
            assert(body@->Obj_0 =~= entries_of(m@));
        }
        if let Some(v) = lookup(m, "value") {
            if let Json::Object(vm) = v {
                proof {
                    assert(v@->Obj_0 =~= entries_of(vm@));
                }
                let ready = lookup(vm, "ready");
                let msg = lookup(vm, "message");
                if let (Some(Json::Bool(b)), Some(Json::Str(msg_s))) = (ready, msg) {
                    return Ok(Status { ready: *b, message: msg_s.clone() });
                }
            }
        }
    }
    Err(WebDriverError::Decoding)
}

} // verus!
