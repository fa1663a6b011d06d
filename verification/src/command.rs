//! The command catalogue and the capability it implements: any closed
//! set of operations — the core set here, or an independently defined
//! vendor set — renders itself into a wire request given the active
//! session, and the dispatcher stays generic over that capability.

use vstd::prelude::*;
use vstd::string::StringExecFns;

use crate::cookie::Cookie;
use crate::cookie::cookie_body;
use crate::json::Json;
use crate::json::JsonV;
use crate::json::obj1;
use crate::json::obj2;
use crate::request::RequestData;
use crate::request::RequestDataV;
use crate::request::RequestMethod;
use crate::request::SessionId;
use crate::request::session_path;
use crate::timeouts::TimeoutConfiguration;
use crate::timeouts::timeouts_body;
use crate::value::RemoteRef;
use crate::value::WebValue;
use crate::value::encode_values;
use crate::value::encode_values_wire;

verus! {

/// The capability of rendering into a wire request. The core catalogue
/// and every vendor command set implement it, each against its own
/// exact request specification, so callers dispatch over the trait and
/// never enumerate the variants themselves.
pub trait FormatRequestData {
    /// The exact request this command renders for the given session.
    spec fn spec_format_request(&self, session: Seq<char>) -> RequestDataV;

    /// Renders the command into a wire request for the given session.
    fn format_request(&self, session_id: &SessionId) -> (r: RequestData)
        ensures
            r@ == self.spec_format_request(session_id@),
            r@.wf(),
    ;
}

/// An element-location strategy, spelled on the wire as the protocol's
/// `using` value together with the selector text.
pub enum By {
    Css(String),
    XPath(String),
    LinkText(String),
    TagName(String),
}

impl By {
    /// The protocol's name of the strategy.
    pub open spec fn spec_using(self) -> Seq<char> {
        match self {
            By::Css(_) => "css selector"@,
            By::XPath(_) => "xpath"@,
            By::LinkText(_) => "link text"@,
            By::TagName(_) => "tag name"@,
        }
    }

    /// The selector text.
    pub open spec fn spec_selector(self) -> Seq<char> {
        match self {
            By::Css(s) => s@,
            By::XPath(s) => s@,
            By::LinkText(s) => s@,
            By::TagName(s) => s@,
        }
    }

    /// The protocol's name of the strategy.
    pub fn using_str(&self) -> (r: &'static str)
        ensures
            r@ == self.spec_using(),
    {
        match self {
            By::Css(_) => "css selector",
            By::XPath(_) => "xpath",
            By::LinkText(_) => "link text",
            By::TagName(_) => "tag name",
        }
    }

    /// The selector text.
    pub fn selector(&self) -> (r: &String)
        ensures
            r@ == self.spec_selector(),
    {
        match self {
            By::Css(s) => s,
            By::XPath(s) => s,
            By::LinkText(s) => s,
            By::TagName(s) => s,
        }
    }
}

/// The core command catalogue: one variant per supported protocol
/// operation, each carrying the operation's parameters.
pub enum Command {
    /// Read the server's readiness state. The only path not scoped to a
    /// session.
    Status,
    /// Navigate the session's top-level browsing context to a URL.
    NavigateTo(String),
    /// Locate the first element matching a strategy and selector.
    FindElement(By),
    /// Run script synchronously in the page, with encoded arguments.
    ExecuteScript(String, Vec<WebValue>),
    /// Run script asynchronously in the page, with encoded arguments.
    ExecuteAsyncScript(String, Vec<WebValue>),
    /// Read a property of the element behind a handle.
    GetElementProperty(RemoteRef, String),
    /// Read all cookies visible to the current page.
    GetAllCookies,
    /// Read one cookie by name.
    GetNamedCookie(String),
    /// Store a cookie.
    AddCookie(Cookie),
    /// Delete one cookie by name.
    DeleteCookie(String),
    /// Delete every cookie visible to the current page.
    DeleteAllCookies,
    /// Read the session's current timeout configuration.
    GetTimeouts,
    /// Write a complete timeout configuration.
    SetTimeouts(TimeoutConfiguration),
}

impl FormatRequestData for Command {
    open spec fn spec_format_request(&self, session: Seq<char>) -> RequestDataV {
        match *self {
            Command::Status => RequestDataV {
                method: RequestMethod::Get,
                path: "/status"@,
                body: None,
            },
            Command::NavigateTo(url) => RequestDataV {
                method: RequestMethod::Post,
                path: "/session/"@ + session + "/url"@,
                body: Some(JsonV::Obj(seq![("url"@, JsonV::Str(url@))])),
            },
            Command::FindElement(by) => RequestDataV {
                method: RequestMethod::Post,
                path: "/session/"@ + session + "/element"@,
                body: Some(
                    JsonV::Obj(
                        seq![
                            ("using"@, JsonV::Str(by.spec_using())),
                            ("value"@, JsonV::Str(by.spec_selector())),
                        ],
                    ),
                ),
            },
            Command::ExecuteScript(script, args) => RequestDataV {
                method: RequestMethod::Post,
                path: "/session/"@ + session + "/execute/sync"@,
                body: Some(
                    JsonV::Obj(
                        seq![("script"@, JsonV::Str(script@)), ("args"@, encode_values_wire(args@))],
                    ),
                ),
            },
            Command::ExecuteAsyncScript(script, args) => RequestDataV {
                method: RequestMethod::Post,
                path: "/session/"@ + session + "/execute/async"@,
                body: Some(
                    JsonV::Obj(
                        seq![("script"@, JsonV::Str(script@)), ("args"@, encode_values_wire(args@))],
                    ),
                ),
            },
            Command::GetElementProperty(elem, name) => RequestDataV {
                method: RequestMethod::Get,
                path: "/session/"@ + session + "/element/"@ + elem.handle@ + "/property/"@ + name@,
                body: None,
            },
            Command::GetAllCookies => RequestDataV {
                method: RequestMethod::Get,
                path: "/session/"@ + session + "/cookie"@,
                body: None,
            },
            Command::GetNamedCookie(name) => RequestDataV {
                method: RequestMethod::Get,
                path: "/session/"@ + session + "/cookie/"@ + name@,
                body: None,
            },
            Command::AddCookie(c) => RequestDataV {
                method: RequestMethod::Post,
                path: "/session/"@ + session + "/cookie"@,
                body: Some(JsonV::Obj(seq![("cookie"@, JsonV::Obj(c.spec_entries()))])),
            },
            Command::DeleteCookie(name) => RequestDataV {
                method: RequestMethod::Delete,
                path: "/session/"@ + session + "/cookie/"@ + name@,
                body: None,
            },
            Command::DeleteAllCookies => RequestDataV {
                method: RequestMethod::Delete,
                path: "/session/"@ + session + "/cookie"@,
                body: None,
            },
            Command::GetTimeouts => RequestDataV {
                method: RequestMethod::Get,
                path: "/session/"@ + session + "/timeouts"@,
                body: None,
            },
            Command::SetTimeouts(t) => RequestDataV {
                method: RequestMethod::Post,
                path: "/session/"@ + session + "/timeouts"@,
                body: Some(JsonV::Obj(t.spec_entries())),
            },
        }
    }

    fn format_request(&self, session_id: &SessionId) -> (r: RequestData) {
        match self {
            Command::Status => RequestData::new(RequestMethod::Get, String::from_str("/status")),
            Command::NavigateTo(url) => RequestData::new(
                RequestMethod::Post,
                session_path(session_id, "/url"),
            ).add_body(obj1("url", Json::Str(url.clone()))),
            Command::FindElement(by) => RequestData::new(
                RequestMethod::Post,
                session_path(session_id, "/element"),
            ).add_body(
                obj2(
                    "using",
                    Json::Str(String::from_str(by.using_str())),
                    "value",
                    Json::Str(by.selector().clone()),
                ),
            ),
            Command::ExecuteScript(script, args) => RequestData::new(
                RequestMethod::Post,
                session_path(session_id, "/execute/sync"),
            ).add_body(obj2("script", Json::Str(script.clone()), "args", encode_values(args))),
            Command::ExecuteAsyncScript(script, args) => RequestData::new(
                RequestMethod::Post,
                session_path(session_id, "/execute/async"),
            ).add_body(obj2("script", Json::Str(script.clone()), "args", encode_values(args))),
            Command::GetElementProperty(elem, name) => {
                let mut p = session_path(session_id, "/element/");
                p.append(elem.handle.as_str());
                p.append("/property/");
                p.append(name.as_str());
                RequestData::new(RequestMethod::Get, p)
            },
            Command::GetAllCookies => RequestData::new(
                RequestMethod::Get,
                session_path(session_id, "/cookie"),
            ),
            Command::GetNamedCookie(name) => {
                let mut p = session_path(session_id, "/cookie/");
                p.append(name.as_str());
                RequestData::new(RequestMethod::Get, p)
            },
            Command::AddCookie(c) => RequestData::new(
                RequestMethod::Post,
                session_path(session_id, "/cookie"),
            ).add_body(obj1("cookie", cookie_body(c))),
            Command::DeleteCookie(name) => {
                let mut p = session_path(session_id, "/cookie/");
                p.append(name.as_str());
                RequestData::new(RequestMethod::Delete, p)
            },
            Command::DeleteAllCookies => RequestData::new(
                RequestMethod::Delete,
                session_path(session_id, "/cookie"),
            ),
            Command::GetTimeouts => RequestData::new(
                RequestMethod::Get,
                session_path(session_id, "/timeouts"),
            ),
            Command::SetTimeouts(t) => RequestData::new(
                RequestMethod::Post,
                session_path(session_id, "/timeouts"),
            ).add_body(timeouts_body(t)),
        }
    }
}

/// The timeout write as the protocol wants it: the caller's partial
/// update is overlaid on the current full configuration, and the whole
/// merged record goes on the wire — the protocol has no partial write,
/// and an omitted field must not reset anything.
pub fn update_timeouts_request(
    current: &TimeoutConfiguration,
    partial: &TimeoutConfiguration,
    session_id: &SessionId,
) -> (r: RequestData)
    ensures
        r@ == (Command::SetTimeouts(crate::timeouts::spec_merge(*current, *partial))
            .spec_format_request(session_id@)),
        r@.wf(),
{
    Command::SetTimeouts(current.merge(partial)).format_request(session_id)
}

/// A handle decoded from a script result flows into later commands
/// unchanged: when a wire tree is exactly a sentinel object, the
/// property-read request for the decoded handle embeds the very
/// reference string the server sent, with nothing altered.
pub proof fn lemma_decoded_handle_embeds_unchanged(
    j: JsonV,
    session: Seq<char>,
    elem: RemoteRef,
    name: String,
)
    requires
        j is Obj,
        crate::value::ref_shape(j->Obj_0),
        elem@ == crate::value::decode_wire(j, session)->Ref_0,
    ensures
        (Command::GetElementProperty(elem, name)).spec_format_request(session).path == "/session/"@
            + session + "/element/"@ + j->Obj_0[0].1->Str_0 + "/property/"@ + name@,
{
}

} // verus!
