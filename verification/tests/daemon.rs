use oneos::daemon::{
    accepted, command_output, decoded_services, hostname_args, list_units_args, logs_outcome,
    timezone_args, write_outcome, dispatch, handle_line, journal_reply, logs_args, plan_bind,
    power_outcome, pretty_name, service_info, session_args, session_outcome, session_state,
    show_args, socket_activated, status, unit_args, unit_step, valid_unit, CommandRun, Dispatch,
    PowerAction, ServiceOp, SessionOp, UnitStep, DEFAULT_LOG_LINES,
};
use oneos::proto::{JsonValue, Method, Request, Response};

fn respond(d: Dispatch) -> Response {
    match d {
        Dispatch::Respond(r) => r,
        other => panic!("expected an immediate answer, got {other:?}"),
    }
}

#[test]
fn ping_is_answered_pong() {
    let r = respond(dispatch(&Request::new(5, Method::Ping), false));
    assert_eq!(r.id, 5);
    assert!(r.ok);
    assert_eq!(r.result, Some(JsonValue::flag_object("pong", true)));
}

#[test]
fn status_is_reported() {
    match dispatch(&Request::new(9, Method::Status), true) {
        Dispatch::ReportStatus { id } => assert_eq!(id, 9),
        other => panic!("unexpected {other:?}"),
    }
}

#[test]
fn power_is_asked_of_systemd() {
    match dispatch(&Request::new(2, Method::Reboot), false) {
        Dispatch::Power { id, action } => {
            assert_eq!(id, 2);
            assert_eq!(action, PowerAction::Reboot);
            assert_eq!(action.verb(), "reboot");
        }
        other => panic!("unexpected {other:?}"),
    }
    match dispatch(&Request::new(3, Method::Poweroff), false) {
        Dispatch::Power { action, .. } => assert_eq!(action.verb(), "poweroff"),
        other => panic!("unexpected {other:?}"),
    }
}

#[test]
fn dev_mode_refuses_power() {
    let r = respond(dispatch(&Request::new(4, Method::Poweroff), true));
    assert_eq!(r.id, 4);
    assert!(!r.ok);
    assert_eq!(
        r.error_message(),
        "dev_mode: power operations are disabled in dev mode"
    );
    assert!(r.result.is_none());
}

#[test]
fn dev_mode_refuses_every_write() {
    for method in [
        Method::SessionStart,
        Method::SessionStop,
        Method::ServiceStart,
        Method::ServiceStop,
        Method::ServiceRestart,
        Method::SettingsSetHostname,
        Method::SettingsSetTimezone,
    ] {
        let r = respond(dispatch(&Request::new(7, method), true));
        assert_eq!(r.id, 7);
        assert_eq!(
            r.error_message(),
            "dev_mode: write operations are disabled in dev mode"
        );
    }
}

fn with_unit(id: u64, method: Method, unit: &str) -> Request {
    let mut request = Request::new(id, method);
    request.params = JsonValue::Object(vec![(
        "unit".to_string(),
        JsonValue::Str(unit.to_string()),
    )]);
    request
}

#[test]
fn reads_act_on_the_host_in_dev_mode() {
    match dispatch(&Request::new(6, Method::ServiceList), true) {
        Dispatch::ListServices { id } => assert_eq!(id, 6),
        other => panic!("unexpected {other:?}"),
    }
    match dispatch(&Request::new(6, Method::SessionStatus), true) {
        Dispatch::Session { id, op } => {
            assert_eq!(id, 6);
            assert_eq!(op, SessionOp::Status);
        }
        other => panic!("unexpected {other:?}"),
    }
    match dispatch(&with_unit(8, Method::ServiceStatus, "oneosd.service"), true) {
        Dispatch::InspectUnit { id, op, unit } => {
            assert_eq!(id, 8);
            assert_eq!(op, ServiceOp::Status);
            assert_eq!(unit, "oneosd.service");
        }
        other => panic!("unexpected {other:?}"),
    }
    match dispatch(&Request::new(9, Method::Logs), true) {
        Dispatch::Logs { id, unit, lines } => {
            assert_eq!(id, 9);
            assert!(unit.is_none());
            assert_eq!(lines, DEFAULT_LOG_LINES);
        }
        other => panic!("unexpected {other:?}"),
    }
}

#[test]
fn writes_act_outside_dev_mode() {
    match dispatch(&Request::new(1, Method::SessionStart), false) {
        Dispatch::Session { op, .. } => assert_eq!(op, SessionOp::Start),
        other => panic!("unexpected {other:?}"),
    }
    match dispatch(&with_unit(2, Method::ServiceRestart, "foo.service"), false) {
        Dispatch::InspectUnit { op, unit, .. } => {
            assert_eq!(op, ServiceOp::Restart);
            assert_eq!(unit, "foo.service");
        }
        other => panic!("unexpected {other:?}"),
    }
}

#[test]
fn unit_names_are_checked() {
    let r = respond(dispatch(&Request::new(3, Method::ServiceStart), false));
    assert_eq!(r.error_message(), "bad_params: missing unit");
    for bad in ["-x.service", "a b", "../etc", ""] {
        let r = respond(dispatch(&with_unit(3, Method::ServiceStop, bad), false));
        assert_eq!(r.error_message(), format!("bad_params: {bad}: invalid unit name"));
    }
    assert!(valid_unit("oneosd.service"));
    assert!(valid_unit("getty@tty1.service"));
    assert!(!valid_unit("a\tb"));
    let mut request = Request::new(4, Method::Logs);
    request.params = JsonValue::Object(vec![("unit".to_string(), JsonValue::Str("a/b".to_string()))]);
    let r = respond(dispatch(&request, false));
    assert_eq!(r.error_message(), "bad_params: a/b: invalid unit name");
    request.params = JsonValue::Str("x".to_string());
    let r = respond(dispatch(&request, false));
    assert_eq!(r.error_message(), "bad_params: invalid logs parameters");
}

#[test]
fn commands_are_judged_by_exit_status() {
    let ok = CommandRun { success: true, stdout: "out\n".to_string(), stderr: String::new() };
    assert_eq!(command_output(1, Ok(ok)).unwrap(), "out\n");
    let failed = CommandRun {
        success: false,
        stdout: String::new(),
        stderr: "Failed to start x.service: Access denied\n".to_string(),
    };
    let r = command_output(1, Ok(failed)).unwrap_err();
    assert_eq!(
        r.error_message(),
        "command_failed: Failed to start x.service: Access denied"
    );
    let r = command_output(1, Err("No such file or directory".to_string())).unwrap_err();
    assert_eq!(r.error_message(), "spawn_failed: No such file or directory");
    let r = accepted(5, "restart");
    assert!(r.ok);
    assert_eq!(r.result, Some(JsonValue::text_object("accepted", "restart")));
    let r = journal_reply(6, "line 1\nline 2\n");
    assert_eq!(r.result, Some(JsonValue::text_object("journal", "line 1\nline 2\n")));
}

#[test]
fn session_state_follows_is_active() {
    let s = session_state("active\n");
    assert!(s.active);
    assert_eq!(s.state, "active");
    let s = session_state("inactive\n");
    assert!(!s.active);
    assert_eq!(s.state, "inactive");
    let ran = CommandRun { success: false, stdout: "failed\n".to_string(), stderr: String::new() };
    let s = session_outcome(1, Ok(ran)).unwrap();
    assert_eq!(s.state, "failed");
    assert!(session_outcome(1, Err("x".to_string())).is_err());
}

#[test]
fn commands_have_their_arguments() {
    assert_eq!(session_args(SessionOp::Status), vec!["is-active", "oneos-session.service"]);
    assert_eq!(session_args(SessionOp::Stop), vec!["stop", "oneos-session.service"]);
    assert_eq!(
        show_args("a.service"),
        vec!["show", "-p", "LoadState,ActiveState,SubState,Description", "a.service"]
    );
    assert_eq!(unit_args("restart", "a.service"), vec!["restart", "a.service"]);
    assert_eq!(logs_args(&None, 100), vec!["--no-pager", "-n", "100"]);
    assert_eq!(
        logs_args(&Some("a.service".to_string()), 7),
        vec!["--no-pager", "-n", "7", "-u", "a.service"]
    );
}

#[test]
fn units_are_inspected_before_acting() {
    let shown = "LoadState=loaded\nActiveState=active\nSubState=running\nDescription=OneOS daemon\n";
    let info = service_info("oneosd.service", shown);
    assert_eq!(info.unit, "oneosd.service");
    assert_eq!(info.load, "loaded");
    assert_eq!(info.active, "active");
    assert_eq!(info.sub, "running");
    assert_eq!(info.description, "OneOS daemon");
    match unit_step(1, ServiceOp::Status, "oneosd.service", Ok(shown.to_string())) {
        UnitStep::Report(info) => assert_eq!(info.sub, "running"),
        other => panic!("unexpected {other:?}"),
    }
    match unit_step(1, ServiceOp::Restart, "oneosd.service", Ok(shown.to_string())) {
        UnitStep::Run { verb } => assert_eq!(verb, "restart"),
        other => panic!("unexpected {other:?}"),
    }
    let missing = "LoadState=not-found\nActiveState=inactive\n";
    match unit_step(2, ServiceOp::Start, "nope.service", Ok(missing.to_string())) {
        UnitStep::Respond(r) => {
            assert_eq!(r.id, 2);
            assert_eq!(r.error_message(), "unit_not_found: nope.service: unit not found");
        }
        other => panic!("unexpected {other:?}"),
    }
    match unit_step(3, ServiceOp::Stop, "x.service", Err("denied".to_string())) {
        UnitStep::Respond(r) => assert_eq!(r.error_message(), "spawn_failed: denied"),
        other => panic!("unexpected {other:?}"),
    }
    assert_eq!(service_info("x", "").description, "");
}

#[test]
fn power_outcome_reports_acceptance_or_failure() {
    let r = power_outcome(8, PowerAction::Poweroff, Ok(()));
    assert!(r.ok);
    assert_eq!(r.id, 8);
    assert_eq!(r.result, Some(JsonValue::text_object("accepted", "poweroff")));
    let r = power_outcome(8, PowerAction::Reboot, Err("No such file".to_string()));
    assert!(!r.ok);
    assert_eq!(r.error_message(), "spawn_failed: No such file");
}

#[test]
fn blank_lines_are_skipped() {
    assert!(handle_line("", Err("eof".to_string()), false).is_none());
    assert!(handle_line(" \t\r", Err("eof".to_string()), false).is_none());
}

#[test]
fn unreadable_lines_are_bad_requests() {
    let d = handle_line("{nope", Err("key must be a string".to_string()), false).unwrap();
    let r = respond(d);
    assert_eq!(r.id, 0);
    assert_eq!(r.error_message(), "bad_request: key must be a string");
}

#[test]
fn requests_are_dispatched() {
    let d = handle_line(
        "{\"id\":1,\"method\":\"ping\"}",
        Ok(Request::new(1, Method::Ping)),
        false,
    )
    .unwrap();
    assert!(respond(d).ok);
}

#[test]
fn os_name_comes_from_os_release() {
    let contents = "NAME=\"OneOS\"\nPRETTY_NAME=\"OneOS 0.0.6\"\nID=oneos\n";
    assert_eq!(pretty_name(Some(contents)), "OneOS 0.0.6");
    assert_eq!(pretty_name(Some("ID=debian\n")), "Linux");
    assert_eq!(pretty_name(None), "Linux");
    assert_eq!(
        pretty_name(Some("PRETTY_NAME=\"First\"\r\nPRETTY_NAME=Second\n")),
        "First"
    );
    assert_eq!(pretty_name(Some("PRETTY_NAME=\"\"\"\n")), "");
    assert_eq!(pretty_name(Some(" PRETTY_NAME=indented\n")), "Linux");
}

#[test]
fn status_report_defaults() {
    let s = status("0.0.6", None, None, 42, None);
    assert_eq!(s.version, "0.0.6");
    assert_eq!(s.os, "Linux");
    assert_eq!(s.hostname, "oneos");
    assert_eq!(s.uptime_secs, 42);
    assert_eq!(s.boot_id, "");
    let s = status(
        "0.0.6",
        Some("PRETTY_NAME=\"OneOS\"\n"),
        Some("box\n"),
        7,
        Some("  1234-abcd\n"),
    );
    assert_eq!(s.os, "OneOS");
    assert_eq!(s.hostname, "box");
    assert_eq!(s.boot_id, "1234-abcd");
}

#[test]
fn socket_activation_needs_own_pid_and_fds() {
    assert!(socket_activated(Some("42"), Some("1"), 42));
    assert!(socket_activated(Some("+42"), Some("2"), 42));
    assert!(!socket_activated(Some("41"), Some("1"), 42));
    assert!(!socket_activated(Some("42"), Some("0"), 42));
    assert!(!socket_activated(None, Some("1"), 42));
    assert!(!socket_activated(Some("42"), None, 42));
    assert!(!socket_activated(Some(" 42"), Some("1"), 42));
    assert!(!socket_activated(Some("42"), Some("x"), 42));
}

#[test]
fn live_sockets_are_never_removed() {
    let plan = plan_bind(true, false, false);
    assert!(plan.create_parent && !plan.refuse_in_use && !plan.remove_stale);
    let plan = plan_bind(false, true, true);
    assert!(plan.refuse_in_use && !plan.remove_stale);
    let plan = plan_bind(false, false, true);
    assert!(!plan.refuse_in_use && plan.remove_stale);
}

fn with_text(id: u64, method: Method, key: &str, value: &str) -> Request {
    let mut request = Request::new(id, method);
    request.params = JsonValue::Object(vec![(key.to_string(), JsonValue::Str(value.to_string()))]);
    request
}

#[test]
fn settings_are_shown_in_dev_mode_too() {
    for dev in [false, true] {
        match dispatch(&Request::new(12, Method::SettingsShow), dev) {
            Dispatch::ShowSettings { id } => assert_eq!(id, 12),
            other => panic!("unexpected {other:?}"),
        }
    }
}

#[test]
fn new_hostname_is_checked_before_it_is_set() {
    let r = respond(dispatch(&Request::new(1, Method::SettingsSetHostname), false));
    assert_eq!(r.error_message(), "bad_params: missing hostname");
    let r = respond(dispatch(
        &with_text(2, Method::SettingsSetHostname, "hostname", "-oneos"),
        false,
    ));
    assert_eq!(r.id, 2);
    assert_eq!(r.error_message(), "bad_params: -oneos: invalid hostname");
    let r = respond(dispatch(
        &with_text(3, Method::SettingsSetHostname, "hostname", "one os"),
        false,
    ));
    assert_eq!(r.error_message(), "bad_params: one os: invalid hostname");
    match dispatch(&with_text(4, Method::SettingsSetHostname, "hostname", "lab-1.oneos"), false) {
        Dispatch::SetHostname { id, hostname } => {
            assert_eq!(id, 4);
            assert_eq!(hostname, "lab-1.oneos");
        }
        other => panic!("unexpected {other:?}"),
    }
    let r = respond(dispatch(
        &with_text(5, Method::SettingsSetHostname, "hostname", "lab-1.oneos"),
        true,
    ));
    assert_eq!(r.error_message(), "dev_mode: write operations are disabled in dev mode");
}

#[test]
fn new_time_zone_is_checked_before_it_is_set() {
    let r = respond(dispatch(&Request::new(1, Method::SettingsSetTimezone), false));
    assert_eq!(r.error_message(), "bad_params: missing timezone");
    let r = respond(dispatch(
        &with_text(2, Method::SettingsSetTimezone, "timezone", "../../etc/passwd"),
        false,
    ));
    assert_eq!(r.error_message(), "bad_params: ../../etc/passwd: invalid time zone");
    let r = respond(dispatch(
        &with_text(2, Method::SettingsSetTimezone, "unit", "UTC"),
        false,
    ));
    assert_eq!(r.error_message(), "bad_params: missing timezone");
    match dispatch(&with_text(6, Method::SettingsSetTimezone, "timezone", "Asia/Shanghai"), false) {
        Dispatch::SetTimezone { id, zone } => {
            assert_eq!(id, 6);
            assert_eq!(zone, "Asia/Shanghai");
        }
        other => panic!("unexpected {other:?}"),
    }
}

fn run(success: bool, stdout: &str, stderr: &str) -> Result<CommandRun, String> {
    Ok(CommandRun {
        success,
        stdout: stdout.to_string(),
        stderr: stderr.to_string(),
    })
}

#[test]
fn write_outcome_accepts_or_reports_the_failure() {
    let r = write_outcome(3, "restart", run(true, "", ""));
    assert!(r.ok);
    assert_eq!(r.result, Some(JsonValue::text_object("accepted", "restart")));
    let r = write_outcome(3, "restart", run(false, "", "  Access denied\n"));
    assert!(!r.ok);
    assert_eq!(r.error_message(), "command_failed: Access denied");
    let r = write_outcome(3, "stop", Err("No such file or directory".to_string()));
    assert_eq!(r.error_message(), "spawn_failed: No such file or directory");
}

#[test]
fn logs_outcome_carries_the_journal() {
    let r = logs_outcome(8, run(true, "line one\nline two\n", ""));
    assert_eq!(r.id, 8);
    assert_eq!(
        r.result,
        Some(JsonValue::text_object("journal", "line one\nline two\n"))
    );
    let r = logs_outcome(8, run(false, "", "No journal files were found.\n"));
    assert_eq!(r.error_message(), "command_failed: No journal files were found.");
}

#[test]
fn undecodable_unit_list_is_bad_output() {
    match decoded_services(4, Err("expected value at line 1 column 1".to_string())) {
        Err(r) => {
            assert_eq!(r.id, 4);
            assert_eq!(r.error_message(), "bad_output: expected value at line 1 column 1");
        }
        Ok(_) => panic!("expected an error"),
    }
    match decoded_services(4, Ok(Vec::new())) {
        Ok(units) => assert!(units.is_empty()),
        Err(r) => panic!("unexpected {r:?}"),
    }
}

#[test]
fn command_arguments_for_settings_and_units() {
    assert_eq!(list_units_args(), vec!["list-units", "--output=json"]);
    assert_eq!(hostname_args("lab"), vec!["set-hostname", "lab"]);
    assert_eq!(timezone_args("UTC"), vec!["set-timezone", "UTC"]);
}
