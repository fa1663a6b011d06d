//! The wire contract of every command variant: HTTP method, rendered
//! path and exact body field names, table-driven over both catalogues.

use thirtyfour::{
    decode_value_response, By, ChromeCommand, Command, FormatRequestData, Json, NetworkConditions,
    RequestMethod, SessionId, TimeoutConfiguration, WebValue,
};
use thirtyfour::RequestMethod::{Delete, Get, Post};

fn obj(entries: Vec<(&str, Json)>) -> Json {
    Json::Object(entries.into_iter().map(|(k, v)| (k.to_string(), v)).collect())
}

fn session() -> SessionId {
    SessionId::new("abc123".to_string())
}

fn check(cmd: &dyn FormatRequestData, method: RequestMethod, path: &str, has_body: bool) {
    let req = cmd.format_request(&session());
    assert_eq!(req.method, method);
    assert_eq!(req.path, path);
    assert_eq!(req.body.is_some(), has_body);
}

#[test]
fn core_catalogue_methods_and_paths() {
    check(&Command::Status, Get, "/status", false);
    check(&Command::NavigateTo("https://example.org".into()), Post, "/session/abc123/url", true);
    check(&Command::FindElement(By::Css("p".into())), Post, "/session/abc123/element", true);
    check(
        &Command::ExecuteScript("return 1;".into(), vec![]),
        Post,
        "/session/abc123/execute/sync",
        true,
    );
    check(
        &Command::ExecuteAsyncScript("done();".into(), vec![]),
        Post,
        "/session/abc123/execute/async",
        true,
    );
    check(&Command::GetAllCookies, Get, "/session/abc123/cookie", false);
    check(&Command::GetNamedCookie("k".into()), Get, "/session/abc123/cookie/k", false);
    check(&Command::DeleteCookie("k".into()), Delete, "/session/abc123/cookie/k", false);
    check(&Command::DeleteAllCookies, Delete, "/session/abc123/cookie", false);
    check(&Command::GetTimeouts, Get, "/session/abc123/timeouts", false);
    check(
        &Command::SetTimeouts(TimeoutConfiguration::new(Some(1), Some(2), Some(3))),
        Post,
        "/session/abc123/timeouts",
        true,
    );
}

#[test]
fn chrome_catalogue_methods_and_paths() {
    check(&ChromeCommand::LaunchApp("app".into()), Post, "/session/abc123/chromium/launch_app", true);
    check(
        &ChromeCommand::GetNetworkConditions,
        Get,
        "/session/abc123/chromium/network_conditions",
        false,
    );
    let conditions = NetworkConditions {
        offline: false,
        latency: 20,
        download_throughput: 1000,
        upload_throughput: 500,
    };
    check(
        &ChromeCommand::SetNetworkConditions(conditions),
        Post,
        "/session/abc123/chromium/network_conditions",
        true,
    );
    check(
        &ChromeCommand::ExecuteCdpCommand("Page.enable".into(), Json::Null),
        Post,
        "/session/abc123/goog/cdp/execute",
        true,
    );
    check(&ChromeCommand::GetSinks, Get, "/session/abc123/goog/cast/get_sinks", false);
    check(
        &ChromeCommand::GetIssueMessage,
        Get,
        "/session/abc123/goog/cast/get_issue_message",
        false,
    );
    check(
        &ChromeCommand::SetSinkToUse("s".into()),
        Post,
        "/session/abc123/goog/cast/set_sink_to_use",
        true,
    );
    check(
        &ChromeCommand::StartTabMirroring("s".into()),
        Post,
        "/session/abc123/goog/cast/start_tab_mirroring",
        true,
    );
    check(
        &ChromeCommand::StopCasting("s".into()),
        Post,
        "/session/abc123/goog/cast/stop_casting",
        true,
    );
}

#[test]
fn navigate_body() {
    let req = Command::NavigateTo("https://example.org/".into()).format_request(&session());
    assert_eq!(req.body, Some(obj(vec![("url", Json::Str("https://example.org/".into()))])));
}

#[test]
fn find_element_body() {
    let req = Command::FindElement(By::XPath("//p[1]".into())).format_request(&session());
    assert_eq!(
        req.body,
        Some(obj(vec![
            ("using", Json::Str("xpath".into())),
            ("value", Json::Str("//p[1]".into())),
        ]))
    );
}

#[test]
fn execute_script_body_encodes_arguments() {
    let args = vec![WebValue::Int(1), WebValue::Str("two".into())];
    let req = Command::ExecuteScript("return arguments;".into(), args).format_request(&session());
    assert_eq!(
        req.body,
        Some(obj(vec![
            ("script", Json::Str("return arguments;".into())),
            ("args", Json::Array(vec![Json::Int(1), Json::Str("two".into())])),
        ]))
    );
}

#[test]
fn launch_app_body() {
    let req = ChromeCommand::LaunchApp("my-app-id".into()).format_request(&session());
    assert_eq!(req.body, Some(obj(vec![("id", Json::Str("my-app-id".into()))])));
}

#[test]
fn set_network_conditions_body() {
    let conditions = NetworkConditions {
        offline: true,
        latency: 50,
        download_throughput: -1,
        upload_throughput: -1,
    };
    let req = ChromeCommand::SetNetworkConditions(conditions).format_request(&session());
    assert_eq!(
        req.body,
        Some(obj(vec![(
            "network_conditions",
            obj(vec![
                ("offline", Json::Bool(true)),
                ("latency", Json::Int(50)),
                ("download_throughput", Json::Int(-1)),
                ("upload_throughput", Json::Int(-1)),
            ]),
        )]))
    );
}

#[test]
fn execute_cdp_command_body_passes_params_verbatim() {
    let params = obj(vec![("expression", Json::Str("1 + 1".into()))]);
    let req = ChromeCommand::ExecuteCdpCommand("Runtime.evaluate".into(), params.deep_clone())
        .format_request(&session());
    assert_eq!(
        req.body,
        Some(obj(vec![
            ("cmd", Json::Str("Runtime.evaluate".into())),
            ("params", params),
        ]))
    );
}

#[test]
fn set_sink_to_use_body_key_casing() {
    // The vendor's sink-name field is camel-cased, exactly "sinkName".
    let req = ChromeCommand::SetSinkToUse("MySink".into()).format_request(&session());
    assert_eq!(req.body, Some(obj(vec![("sinkName", Json::Str("MySink".into()))])));
}

#[test]
fn start_tab_mirroring_and_stop_casting_bodies() {
    let req = ChromeCommand::StartTabMirroring("MySink".into()).format_request(&session());
    assert_eq!(req.body, Some(obj(vec![("sinkName", Json::Str("MySink".into()))])));
    let req = ChromeCommand::StopCasting("MySink".into()).format_request(&session());
    assert_eq!(req.body, Some(obj(vec![("sinkName", Json::Str("MySink".into()))])));
}

#[test]
fn decoded_script_handle_flows_into_property_read_path() {
    // A script returns a DOM node: the response holds a sentinel object.
    let response = obj(vec![(
        "value",
        obj(vec![(thirtyfour::ELEMENT_KEY, Json::Str("node-77".into()))]),
    )]);
    let decoded = decode_value_response(&response, &session()).expect("structural decode");
    let handle = match decoded {
        WebValue::Ref(r) => r,
        other => panic!("expected a reference, got {:?}", other),
    };
    assert_eq!(handle.handle, "node-77");

    // A property read on the decoded handle embeds the reference string
    // unchanged in its path.
    let req = Command::GetElementProperty(handle, "id".into()).format_request(&session());
    assert_eq!(req.method, RequestMethod::Get);
    assert_eq!(req.path, "/session/abc123/element/node-77/property/id");
    assert!(req.body.is_none());
}
