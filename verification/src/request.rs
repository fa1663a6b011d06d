//! The wire-request model: an HTTP method, a session-scoped path and an
//! optional JSON body, ready to hand to a transport.

use vstd::prelude::*;
use vstd::string::StringExecFns;

use crate::json::Json;
use crate::json::JsonV;

verus! {

/// The opaque token, assigned by the remote server at session creation,
/// that scopes every session-bound command path.
#[derive(Debug, Clone, PartialEq, Eq)]
pub struct SessionId {
    pub id: String,
}

impl View for SessionId {
    type V = Seq<char>;

    open spec fn view(&self) -> Seq<char> {
        self.id@
    }
}

impl SessionId {
    pub fn new(id: String) -> (r: SessionId)
        ensures
            r@ == id@,
    {
        SessionId { id }
    }

    pub fn as_str(&self) -> (r: &str)
        ensures
            r@ == self@,
    {
        self.id.as_str()
    }
}

/// The HTTP method of a wire request. Reads with no side effect use
/// `Get`, commands with parameters or side effects use `Post`, and
/// removals use `Delete`.
#[derive(Clone, Copy, Debug, PartialEq, Eq, Structural)]
pub enum RequestMethod {
    Get,
    Post,
    Delete,
}

/// A rendered wire request: method, fully substituted path and an
/// optional JSON body. Constructing one is pure; sending it is the
/// transport's business.
#[derive(Debug, PartialEq, Eq)]
pub struct RequestData {
    pub method: RequestMethod,
    pub path: String,
    pub body: Option<Json>,
}

/// The mathematical shape of a [`RequestData`].
#[verifier::ext_equal]
pub struct RequestDataV {
    pub method: RequestMethod,
    pub path: Seq<char>,
    pub body: Option<JsonV>,
}

impl RequestDataV {
    /// Only a `Post` request carries a body.
    pub open spec fn wf(self) -> bool {
        self.body is Some ==> self.method is Post
    }
}

impl View for RequestData {
    type V = RequestDataV;

    open spec fn view(&self) -> RequestDataV {
        RequestDataV {
            method: self.method,
            path: self.path@,
            body: match self.body {
                Some(b) => Some(b@),
                None => None,
            },
        }
    }
}

impl RequestData {
    /// A bodiless request with the given method and path.
    pub fn new(method: RequestMethod, path: String) -> (r: RequestData)
        ensures
            r@ == (RequestDataV { method, path: path@, body: None }),
            r@.wf(),
    {
        RequestData { method, path, body: None }
    }

    /// Attaches a JSON body; only a `Post` request accepts one.
    pub fn add_body(self, body: Json) -> (r: RequestData)
        requires
            self.method is Post,
        ensures
            r@ == (RequestDataV { method: self@.method, path: self@.path, body: Some(body@) }),
            r@.wf(),
    {
        RequestData { method: self.method, path: self.path, body: Some(body) }
    }
}

/// Builds `/session/{session}{suffix}`: every session-scoped path is
/// formed here, so no rendered path can keep an unsubstituted
/// placeholder.
pub fn session_path(session: &SessionId, suffix: &str) -> (r: String)
    ensures
        r@ == "/session/"@ + session@ + suffix@,
{
    let mut s = String::from_str("/session/");
    s.append(session.as_str());
    s.append(suffix);
    s
}

} // verus!
