//! A vendor command set: Chrome-specific operations implementing the
//! same request-rendering capability as the core catalogue, so the
//! dispatcher needs no change to carry them.

use vstd::prelude::*;
use vstd::string::StringExecFns;

use crate::command::FormatRequestData;
use crate::json::Json;
use crate::json::JsonV;
use crate::json::obj1;
use crate::json::obj2;
use crate::request::RequestData;
use crate::request::RequestDataV;
use crate::request::RequestMethod;
use crate::request::SessionId;
use crate::request::session_path;

verus! {

/// Simulated network conditions, as the vendor's conditions endpoint
/// understands them. Throughputs are in bytes per second; a negative
/// throughput means "leave unlimited". Latency is in milliseconds.
#[derive(Clone, Copy, Debug, PartialEq, Eq, Structural)]
pub struct NetworkConditions {
    pub offline: bool,
    pub latency: u32,
    pub download_throughput: i64,
    pub upload_throughput: i64,
}

impl NetworkConditions {
    /// The wire entries of the conditions object, in the endpoint's
    /// field order and spelling.
    pub open spec fn spec_entries(self) -> Seq<(Seq<char>, JsonV)> {
        seq![
            ("offline"@, JsonV::Bool(self.offline)),
            ("latency"@, JsonV::Int(self.latency as int)),
            ("download_throughput"@, JsonV::Int(self.download_throughput as int)),
            ("upload_throughput"@, JsonV::Int(self.upload_throughput as int)),
        ]
    }
}

/// Renders the conditions as their wire object.
pub fn network_conditions_body(c: &NetworkConditions) -> (r: Json)
    ensures
        r@ == JsonV::Obj(c.spec_entries()),
{
    let mut entries: Vec<(String, Json)> = Vec::new();
    entries.push((String::from_str("offline"), Json::Bool(c.offline)));
    entries.push((String::from_str("latency"), Json::Int(c.latency as i64)));
    entries.push((String::from_str("download_throughput"), Json::Int(c.download_throughput)));
    entries.push((String::from_str("upload_throughput"), Json::Int(c.upload_throughput)));
    let r = Json::Object(entries);
    proof {
        reveal_with_fuel(crate::json::json_view, 2);
        assert(r@ is Obj);
        assert(r@->Obj_0 =~~= c.spec_entries());
        assert(r@ =~~= JsonV::Obj(c.spec_entries()));
    }
    r
}

/// Extra commands specific to Chrome.
pub enum ChromeCommand {
    /// Launch the specified Chrome app.
    LaunchApp(String),
    /// Get the current simulated network conditions.
    GetNetworkConditions,
    /// Set the specified network conditions to simulate.
    SetNetworkConditions(NetworkConditions),
    /// Execute the specified Chrome DevTools Protocol command. The
    /// parameter tree is caller-supplied and passes through verbatim:
    /// the remote debug protocol is open-ended and this layer neither
    /// validates nor transforms it.
    ExecuteCdpCommand(String, Json),
    /// Get the current sinks.
    GetSinks,
    /// Get the issue message.
    GetIssueMessage,
    /// Set the specified sink to use.
    SetSinkToUse(String),
    /// Start tab mirroring.
    StartTabMirroring(String),
    /// Stop casting.
    StopCasting(String),
}

impl FormatRequestData for ChromeCommand {
    open spec fn spec_format_request(&self, session: Seq<char>) -> RequestDataV {
        match *self {
            ChromeCommand::LaunchApp(app_id) => RequestDataV {
                method: RequestMethod::Post,
                path: "/session/"@ + session + "/chromium/launch_app"@,
                body: Some(JsonV::Obj(seq![("id"@, JsonV::Str(app_id@))])),
            },
            ChromeCommand::GetNetworkConditions => RequestDataV {
                method: RequestMethod::Get,
                path: "/session/"@ + session + "/chromium/network_conditions"@,
                body: None,
            },
            ChromeCommand::SetNetworkConditions(conditions) => RequestDataV {
                method: RequestMethod::Post,
                path: "/session/"@ + session + "/chromium/network_conditions"@,
                body: Some(
                    JsonV::Obj(
                        seq![("network_conditions"@, JsonV::Obj(conditions.spec_entries()))],
                    ),
                ),
            },
            ChromeCommand::ExecuteCdpCommand(cmd, params) => RequestDataV {
                method: RequestMethod::Post,
                path: "/session/"@ + session + "/goog/cdp/execute"@,
                body: Some(
                    JsonV::Obj(seq![("cmd"@, JsonV::Str(cmd@)), ("params"@, params@)]),
                ),
            },
            ChromeCommand::GetSinks => RequestDataV {
                method: RequestMethod::Get,
                path: "/session/"@ + session + "/goog/cast/get_sinks"@,
                body: None,
            },
            ChromeCommand::GetIssueMessage => RequestDataV {
                method: RequestMethod::Get,
                path: "/session/"@ + session + "/goog/cast/get_issue_message"@,
                body: None,
            },
            ChromeCommand::SetSinkToUse(sink_name) => RequestDataV {
                method: RequestMethod::Post,
                path: "/session/"@ + session + "/goog/cast/set_sink_to_use"@,
                body: Some(JsonV::Obj(seq![("sinkName"@, JsonV::Str(sink_name@))])),
            },
            ChromeCommand::StartTabMirroring(sink_name) => RequestDataV {
                method: RequestMethod::Post,
                path: "/session/"@ + session + "/goog/cast/start_tab_mirroring"@,
                body: Some(JsonV::Obj(seq![("sinkName"@, JsonV::Str(sink_name@))])),
            },
            ChromeCommand::StopCasting(sink_name) => RequestDataV {
                method: RequestMethod::Post,
                path: "/session/"@ + session + "/goog/cast/stop_casting"@,
                body: Some(JsonV::Obj(seq![("sinkName"@, JsonV::Str(sink_name@))])),
            },
        }
    }

    fn format_request(&self, session_id: &SessionId) -> (r: RequestData) {
        match self {
            ChromeCommand::LaunchApp(app_id) => RequestData::new(
                RequestMethod::Post,
                session_path(session_id, "/chromium/launch_app"),
            ).add_body(obj1("id", Json::Str(app_id.clone()))),
            ChromeCommand::GetNetworkConditions => RequestData::new(
                RequestMethod::Get,
                session_path(session_id, "/chromium/network_conditions"),
            ),
            ChromeCommand::SetNetworkConditions(conditions) => RequestData::new(
                RequestMethod::Post,
                session_path(session_id, "/chromium/network_conditions"),
            ).add_body(obj1("network_conditions", network_conditions_body(conditions))),
            ChromeCommand::ExecuteCdpCommand(cmd, params) => RequestData::new(
                RequestMethod::Post,
                session_path(session_id, "/goog/cdp/execute"),
            ).add_body(obj2("cmd", Json::Str(cmd.clone()), "params", params.deep_clone())),
            ChromeCommand::GetSinks => RequestData::new(
                RequestMethod::Get,
                session_path(session_id, "/goog/cast/get_sinks"),
            ),
            ChromeCommand::GetIssueMessage => RequestData::new(
                RequestMethod::Get,
                session_path(session_id, "/goog/cast/get_issue_message"),
            ),
            ChromeCommand::SetSinkToUse(sink_name) => RequestData::new(
                RequestMethod::Post,
                session_path(session_id, "/goog/cast/set_sink_to_use"),
            ).add_body(obj1("sinkName", Json::Str(sink_name.clone()))),
            ChromeCommand::StartTabMirroring(sink_name) => RequestData::new(
                RequestMethod::Post,
                session_path(session_id, "/goog/cast/start_tab_mirroring"),
            ).add_body(obj1("sinkName", Json::Str(sink_name.clone()))),
            ChromeCommand::StopCasting(sink_name) => RequestData::new(
                RequestMethod::Post,
                session_path(session_id, "/goog/cast/stop_casting"),
            ).add_body(obj1("sinkName", Json::Str(sink_name.clone()))),
        }
    }
}

} // verus!
