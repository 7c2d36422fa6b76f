use oneos::cli::{
    accept_response, action, command_request, reply_of, Reply, format_uptime, journal_text, parse_command,
    service_lines, service_rows, session_line, settings_lines, status_lines, Command, Failure,
    USAGE,
};
use oneos::daemon::{ServiceOp, SessionOp};
use oneos::proto::{
    text_param, JsonValue, LogsParam, Method, Response, ServiceInfo, SessionState, Settings,
    Status, UnitParam,
};

#[test]
fn uptime_is_formatted_by_largest_unit() {
    assert_eq!(format_uptime(0), "0s");
    assert_eq!(format_uptime(42), "42s");
    assert_eq!(format_uptime(60), "1m 0s");
    assert_eq!(format_uptime(125), "2m 5s");
    assert_eq!(format_uptime(3600), "1h 0m 0s");
    assert_eq!(format_uptime(3661), "1h 1m 1s");
    assert_eq!(format_uptime(90061), "25h 1m 1s");
    assert_eq!(format_uptime(u64::MAX), "5124095576030431h 0m 15s");
}

fn args(words: &[&str]) -> Vec<String> {
    words.iter().map(|w| w.to_string()).collect()
}

#[test]
fn commands_are_chosen_by_first_word() {
    assert!(matches!(parse_command(&args(&[])), Command::Status));
    assert!(matches!(parse_command(&args(&["status"])), Command::Status));
    assert!(matches!(parse_command(&args(&["ping", "x"])), Command::Ping));
    assert!(matches!(parse_command(&args(&["poweroff"])), Command::Poweroff));
    assert!(matches!(parse_command(&args(&["reboot"])), Command::Reboot));
    assert!(matches!(parse_command(&args(&["version"])), Command::Version));
    assert!(matches!(parse_command(&args(&["-h"])), Command::Help));
    assert!(matches!(parse_command(&args(&["--help"])), Command::Help));
    assert!(matches!(parse_command(&args(&["help"])), Command::Help));
    match parse_command(&args(&["frobnicate"])) {
        Command::Unknown(w) => assert_eq!(w, "frobnicate"),
        other => panic!("unexpected {other:?}"),
    }
}

#[test]
fn failures_have_codes_and_messages() {
    let f = Failure::Connect("No such file or directory".to_string());
    assert_eq!(f.exit_code(), 3);
    assert_eq!(
        f.message(),
        "oneos: cannot connect to oneosd: No such file or directory"
    );
    let f = Failure::Request("broken pipe".to_string());
    assert_eq!(f.exit_code(), 3);
    assert_eq!(f.message(), "oneos: request failed: broken pipe");
    let f = Failure::Rejected("dev_mode: no".to_string());
    assert_eq!(f.exit_code(), 4);
    assert_eq!(f.message(), "oneos: dev_mode: no");
    assert_eq!(Failure::Malformed.exit_code(), 2);
    assert_eq!(
        Failure::Malformed.message(),
        "oneos: malformed status response"
    );
    let f = Failure::UnknownCommand("frob".to_string());
    assert_eq!(f.exit_code(), 2);
    assert_eq!(f.message(), "oneos: unknown command: frob");
}

#[test]
fn refused_responses_fail_with_their_message() {
    let r = Response::error(1, "dev_mode", "power operations are disabled in dev mode");
    match accept_response(r) {
        Err(Failure::Rejected(m)) => {
            assert_eq!(m, "dev_mode: power operations are disabled in dev mode")
        }
        other => panic!("unexpected {other:?}"),
    }
    let r = Response::ok(1, None);
    assert!(accept_response(r).is_ok());
}

#[test]
fn action_only_needs_success() {
    assert!(action(Ok(Response::ok(1, None))).is_ok());
    match action(Err(Failure::Request("x".to_string()))) {
        Err(f) => assert_eq!(f.exit_code(), 3),
        Ok(()) => panic!("expected failure"),
    }
}

#[test]
fn status_is_printed_in_labelled_lines() {
    let status = Status {
        version: "0.0.6".to_string(),
        os: "OneOS 0.0.6".to_string(),
        hostname: "oneos".to_string(),
        uptime_secs: 3661,
        boot_id: "abc".to_string(),
    };
    let lines = status_lines(&status);
    assert_eq!(
        lines,
        vec![
            "OneOS        0.0.6".to_string(),
            "Hostname     oneos".to_string(),
            "OS           OneOS 0.0.6".to_string(),
            "Uptime       1h 1m 1s".to_string(),
            "Boot ID      abc".to_string(),
        ]
    );
}

fn usage_of(words: &[&str]) -> String {
    match parse_command(&args(words)) {
        Command::Usage(line) => line,
        other => panic!("expected a usage line for {words:?}, got {other:?}"),
    }
}

#[test]
fn session_and_service_commands_are_read() {
    assert!(matches!(
        parse_command(&args(&["session", "status"])),
        Command::Session(SessionOp::Status)
    ));
    assert!(matches!(
        parse_command(&args(&["session", "start"])),
        Command::Session(SessionOp::Start)
    ));
    assert!(matches!(
        parse_command(&args(&["session", "stop"])),
        Command::Session(SessionOp::Stop)
    ));
    assert_eq!(usage_of(&["session"]), "usage: oneos session status|start|stop");
    assert_eq!(usage_of(&["session", "restart"]), "usage: oneos session status|start|stop");
    assert!(matches!(parse_command(&args(&["service", "list"])), Command::ServiceList));
    match parse_command(&args(&["service", "restart", "sshd.service"])) {
        Command::Service(op, unit) => {
            assert_eq!(op, ServiceOp::Restart);
            assert_eq!(unit, "sshd.service");
        }
        other => panic!("unexpected {other:?}"),
    }
    let line = "usage: oneos service list | service status|start|stop|restart <unit>";
    assert_eq!(usage_of(&["service"]), line);
    assert_eq!(usage_of(&["service", "status"]), line);
    assert_eq!(usage_of(&["service", "enable", "x.service"]), line);
}

#[test]
fn logs_options_are_read() {
    match parse_command(&args(&["logs"])) {
        Command::Logs { unit, lines } => {
            assert_eq!(unit, None);
            assert_eq!(lines, None);
        }
        other => panic!("unexpected {other:?}"),
    }
    match parse_command(&args(&["logs", "-u", "oneosd.service", "-n", "20"])) {
        Command::Logs { unit, lines } => {
            assert_eq!(unit.as_deref(), Some("oneosd.service"));
            assert_eq!(lines, Some(20));
        }
        other => panic!("unexpected {other:?}"),
    }
    match parse_command(&args(&["logs", "-n", "5", "-n", "7"])) {
        Command::Logs { unit, lines } => {
            assert_eq!(unit, None);
            assert_eq!(lines, Some(7));
        }
        other => panic!("unexpected {other:?}"),
    }
    let line = "usage: oneos logs [-u unit] [-n lines]";
    assert_eq!(usage_of(&["logs", "-u"]), line);
    assert_eq!(usage_of(&["logs", "-n", "many"]), line);
    assert_eq!(usage_of(&["logs", "-n", "4294967296"]), line);
    assert_eq!(usage_of(&["logs", "--follow"]), line);
}

#[test]
fn settings_commands_are_read() {
    assert!(matches!(parse_command(&args(&["settings"])), Command::SettingsShow));
    assert!(matches!(parse_command(&args(&["settings", "show"])), Command::SettingsShow));
    match parse_command(&args(&["settings", "hostname", "lab"])) {
        Command::SetHostname(h) => assert_eq!(h, "lab"),
        other => panic!("unexpected {other:?}"),
    }
    match parse_command(&args(&["settings", "timezone", "Asia/Shanghai"])) {
        Command::SetTimezone(z) => assert_eq!(z, "Asia/Shanghai"),
        other => panic!("unexpected {other:?}"),
    }
    let line = "usage: oneos settings [show|hostname <name>|timezone <zone>]";
    assert_eq!(usage_of(&["settings", "hostname"]), line);
    assert_eq!(usage_of(&["settings", "locale", "C"]), line);
}

#[test]
fn commands_send_their_requests() {
    let r = command_request(&Command::Session(SessionOp::Stop)).unwrap();
    assert_eq!(r.id, 1);
    assert_eq!(r.method, Method::SessionStop);
    assert_eq!(r.params, JsonValue::Null);

    let r = command_request(&Command::Service(ServiceOp::Status, "a.service".to_string())).unwrap();
    assert_eq!(r.method, Method::ServiceStatus);
    assert_eq!(r.params, JsonValue::text_object("unit", "a.service"));
    assert_eq!(UnitParam::from_json(&r.params).unwrap().unit, "a.service");

    let r = command_request(&Command::Logs {
        unit: Some("b.service".to_string()),
        lines: Some(30),
    })
    .unwrap();
    assert_eq!(r.method, Method::Logs);
    assert_eq!(
        r.params,
        JsonValue::Object(vec![
            ("unit".to_string(), JsonValue::Str("b.service".to_string())),
            ("lines".to_string(), JsonValue::Number("30".to_string())),
        ])
    );
    let p: LogsParam = LogsParam::from_json(&r.params).unwrap();
    assert_eq!(p.unit.as_deref(), Some("b.service"));
    assert_eq!(p.lines, Some(30));

    let r = command_request(&Command::SetHostname("lab".to_string())).unwrap();
    assert_eq!(r.method, Method::SettingsSetHostname);
    assert_eq!(text_param(&r.params, "hostname").as_deref(), Some("lab"));

    let r = command_request(&Command::SetTimezone("UTC".to_string())).unwrap();
    assert_eq!(r.method, Method::SettingsSetTimezone);
    assert_eq!(r.params, JsonValue::text_object("timezone", "UTC"));

    let r = command_request(&Command::SettingsShow).unwrap();
    assert_eq!(r.method, Method::SettingsShow);
    assert!(command_request(&Command::Version).is_none());
    assert!(command_request(&Command::Help).is_none());
    assert!(command_request(&Command::Usage("u".to_string())).is_none());
    assert!(command_request(&Command::Unknown("x".to_string())).is_none());
}

#[test]
fn results_are_printed_in_lines() {
    let info = ServiceInfo {
        unit: "oneosd.service".to_string(),
        load: "loaded".to_string(),
        active: "active".to_string(),
        sub: "running".to_string(),
        description: "OneOS daemon".to_string(),
    };
    assert_eq!(
        service_lines(&info),
        vec![
            "Unit         oneosd.service",
            "Load         loaded",
            "Active       active",
            "Sub          running",
            "Description  OneOS daemon",
        ]
    );
    assert_eq!(
        service_rows(&vec![info.clone(), info]),
        vec![
            "oneosd.service  loaded  active  running  OneOS daemon",
            "oneosd.service  loaded  active  running  OneOS daemon",
        ]
    );
    assert!(service_rows(&Vec::new()).is_empty());
    let settings = Settings {
        hostname: "oneos".to_string(),
        timezone: "UTC".to_string(),
        locale: "C.UTF-8".to_string(),
    };
    assert_eq!(
        settings_lines(&settings),
        vec!["Hostname     oneos", "Timezone     UTC", "Locale       C.UTF-8"]
    );
    let state = SessionState {
        active: false,
        state: "inactive".to_string(),
    };
    assert_eq!(session_line(&state), "Session      inactive");
    let result = Some(JsonValue::text_object("journal", "a\nb\n"));
    assert_eq!(journal_text(&result).as_deref(), Some("a\nb\n"));
    assert_eq!(journal_text(&None), None);
    assert_eq!(journal_text(&Some(JsonValue::Null)), None);
}

#[test]
fn usage_and_malformed_replies_exit_2() {
    let f = Failure::Usage("usage: oneos logs [-u unit] [-n lines]".to_string());
    assert_eq!(f.exit_code(), 2);
    assert_eq!(f.message(), "usage: oneos logs [-u unit] [-n lines]");
    let f = Failure::MalformedReply("service_list".to_string());
    assert_eq!(f.exit_code(), 2);
    assert_eq!(f.message(), "oneos: malformed service_list response");
    assert!(USAGE.contains("settings [show|hostname <name>|timezone <zone>]"));
}

#[test]
fn reading_commands_print_reports() {
    assert_eq!(reply_of(&Command::Status), Reply::StatusReport);
    assert_eq!(reply_of(&Command::Ping), Reply::Pong);
    assert_eq!(reply_of(&Command::Session(SessionOp::Status)), Reply::SessionReport);
    assert_eq!(reply_of(&Command::Session(SessionOp::Start)), Reply::Nothing);
    assert_eq!(reply_of(&Command::ServiceList), Reply::UnitRows);
    assert_eq!(
        reply_of(&Command::Service(ServiceOp::Status, "a".to_string())),
        Reply::UnitReport
    );
    assert_eq!(
        reply_of(&Command::Service(ServiceOp::Stop, "a".to_string())),
        Reply::Nothing
    );
    assert_eq!(reply_of(&Command::Logs { unit: None, lines: None }), Reply::Journal);
    assert_eq!(reply_of(&Command::SettingsShow), Reply::SettingsReport);
    assert_eq!(reply_of(&Command::SetHostname("x".to_string())), Reply::Nothing);
    assert_eq!(reply_of(&Command::Poweroff), Reply::Nothing);
}
