use oneos::proto::{
    frame_message, reply_line, socket_path, JsonValue, LogsParam, Method, Request, Response,
    UnitParam, DEFAULT_SOCKET,
};

// The wire format encodes a method as the JSON string of `Method::name`.
#[test]
fn method_names_are_snake_case() {
    assert_eq!(serde_json::to_string(Method::Ping.name()).unwrap(), "\"ping\"");
    assert_eq!(
        serde_json::to_string(Method::ServiceList.name()).unwrap(),
        "\"service_list\""
    );
    let name: String = serde_json::from_str("\"session_start\"").unwrap();
    assert_eq!(Method::from_name(&name), Some(Method::SessionStart));
}

#[test]
fn every_method_reads_back_from_its_name() {
    let all = [
        Method::Ping,
        Method::Status,
        Method::Poweroff,
        Method::Reboot,
        Method::SessionStatus,
        Method::SessionStart,
        Method::SessionStop,
        Method::ServiceList,
        Method::ServiceStatus,
        Method::ServiceStart,
        Method::ServiceStop,
        Method::ServiceRestart,
        Method::Logs,
        Method::SettingsShow,
        Method::SettingsSetHostname,
        Method::SettingsSetTimezone,
    ];
    for method in all {
        assert_eq!(Method::from_name(method.name()), Some(method));
    }
    assert_eq!(Method::ServiceRestart.name(), "service_restart");
    assert_eq!(Method::SettingsShow.name(), "settings_show");
    assert_eq!(Method::SettingsSetHostname.name(), "settings_set_hostname");
    assert_eq!(Method::SettingsSetTimezone.name(), "settings_set_timezone");
    assert_eq!(Method::from_name("Ping"), None);
    assert_eq!(Method::from_name("service-list"), None);
    assert_eq!(Method::from_name(""), None);
}

#[test]
fn write_methods_are_marked() {
    assert!(Method::Poweroff.is_write());
    assert!(Method::SessionStop.is_write());
    assert!(Method::ServiceRestart.is_write());
    assert!(!Method::Status.is_write());
    assert!(!Method::Logs.is_write());
    assert!(!Method::ServiceList.is_write());
    assert!(Method::SettingsSetHostname.is_write());
    assert!(Method::SettingsSetTimezone.is_write());
    assert!(!Method::SettingsShow.is_write());
}

#[test]
fn request_new_has_null_params() {
    let request = Request::new(7, Method::ServiceStatus);
    assert_eq!(request.id, 7);
    assert_eq!(request.method, Method::ServiceStatus);
    assert_eq!(request.params, JsonValue::Null);
}

#[test]
fn response_shapes() {
    let result = JsonValue::Object(vec![
        ("active".to_string(), JsonValue::Bool(true)),
        ("state".to_string(), JsonValue::Str("active".to_string())),
    ]);
    let ok = Response::ok(1, Some(result));
    assert!(ok.ok);
    match &ok.result {
        Some(JsonValue::Object(members)) => {
            assert_eq!(members[1].0, "state");
            assert_eq!(members[1].1, JsonValue::Str("active".to_string()));
        }
        other => panic!("unexpected result {other:?}"),
    }
    assert!(ok.error.is_none());

    let error = Response::error(2, "bad_params", "missing unit");
    assert!(!error.ok);
    assert_eq!(error.id, 2);
    assert_eq!(error.error.as_ref().unwrap().code, "bad_params");
    assert!(error.result.is_none());
}

#[test]
fn error_message_joins_code_and_message() {
    let error = Response::error(3, "unit_not_found", "nope.service: unit not found");
    assert_eq!(
        error.error_message(),
        "unit_not_found: nope.service: unit not found"
    );
    let ok = Response::ok(3, None);
    assert_eq!(ok.error_message(), "unknown error");
}

#[test]
fn logs_param_defaults() {
    let param = LogsParam::from_json(&JsonValue::Object(vec![])).unwrap();
    assert!(param.unit.is_none());
    assert!(param.lines.is_none());
    let param = LogsParam::default();
    assert!(param.unit.is_none());
    assert!(param.lines.is_none());
}

#[test]
fn logs_params_are_read() {
    let params = JsonValue::Object(vec![
        ("lines".to_string(), JsonValue::Number("20".to_string())),
        ("unit".to_string(), JsonValue::Str("oneosd.service".to_string())),
    ]);
    let param = LogsParam::from_json(&params).unwrap();
    assert_eq!(param.unit.as_deref(), Some("oneosd.service"));
    assert_eq!(param.lines, Some(20));
    assert!(LogsParam::from_json(&JsonValue::Null).unwrap().unit.is_none());
    let bad = JsonValue::Object(vec![("lines".to_string(), JsonValue::Number("-1".to_string()))]);
    assert!(LogsParam::from_json(&bad).is_none());
    let bad = JsonValue::Object(vec![("unit".to_string(), JsonValue::Bool(true))]);
    assert!(LogsParam::from_json(&bad).is_none());
    assert!(LogsParam::from_json(&JsonValue::Bool(true)).is_none());
}

#[test]
fn unit_params_are_read() {
    let params = JsonValue::Object(vec![(
        "unit".to_string(),
        JsonValue::Str("oneosd.service".to_string()),
    )]);
    assert_eq!(UnitParam::from_json(&params).unwrap().unit, "oneosd.service");
    assert!(UnitParam::from_json(&JsonValue::Object(vec![])).is_none());
    assert!(UnitParam::from_json(&JsonValue::Null).is_none());
}

#[test]
fn socket_path_prefers_configuration() {
    assert_eq!(socket_path(None), DEFAULT_SOCKET);
    assert_eq!(socket_path(None), "/run/oneos/oneosd.sock");
    assert_eq!(
        socket_path(Some("/tmp/oneos-dev.sock".to_string())),
        "/tmp/oneos-dev.sock"
    );
    assert_eq!(socket_path(Some(String::new())), "");
}

#[test]
fn messages_end_with_newline() {
    let mut payload = b"{\"id\":1}".to_vec();
    frame_message(&mut payload);
    assert_eq!(payload, b"{\"id\":1}\n".to_vec());
    let mut empty = Vec::new();
    frame_message(&mut empty);
    assert_eq!(empty, vec![b'\n']);
}

#[test]
fn empty_read_means_closed() {
    assert_eq!(reply_line(0, String::new()), None);
    assert_eq!(
        reply_line(12, "{\"id\":1}\n".to_string()),
        Some("{\"id\":1}\n".to_string())
    );
}

#[test]
fn json_objects_of_one_member() {
    assert_eq!(
        JsonValue::flag_object("pong", true),
        JsonValue::Object(vec![("pong".to_string(), JsonValue::Bool(true))])
    );
    assert_eq!(
        JsonValue::text_object("accepted", "reboot"),
        JsonValue::Object(vec![(
            "accepted".to_string(),
            JsonValue::Str("reboot".to_string())
        )])
    );
}
