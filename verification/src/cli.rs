//! The decisions and the output of the `oneos` command-line client: which
//! command the arguments name, which request it sends, how a response is
//! judged, what is printed and with which exit code the client fails.
use vstd::prelude::*;

use crate::daemon::{
    Dispatch, PowerAction, ServiceOp, SessionOp, dispatched, service_op_of, strings_view, valid_unit_name,
};
use crate::settings::{valid_hostname, valid_zone_name};
use vstd::arithmetic::div_mod::lemma_fundamental_div_mod_converse;
use crate::proto::{
    JsonValue, Method, Request, Response, ServiceInfo, SessionState, Settings, Status, error_text,
    is_text_object, logs_params, member, optional_count, optional_text, text_member, text_param,
    unit_param,
};
use crate::text::{
    chars_eq, chars_of, decimal, decimal_text, lemma_decimal_roundtrip, parse_u32, parse_unsigned,
    push_decimal, push_str, string_of,
};

verus! {

/// The commands of the client.
#[derive(Debug)]
pub enum Command {
    Status,
    Ping,
    Poweroff,
    Reboot,
    Version,
    Help,
    /// `session status|start|stop`
    Session(SessionOp),
    /// `service list`
    ServiceList,
    /// `service status|start|stop|restart <unit>`
    Service(ServiceOp, String),
    /// `logs [-u unit] [-n lines]`
    Logs { unit: Option<String>, lines: Option<u32> },
    /// `settings` or `settings show`
    SettingsShow,
    /// `settings hostname <name>`
    SetHostname(String),
    /// `settings timezone <zone>`
    SetTimezone(String),
    /// A known command given arguments it does not take: the usage line of
    /// that command.
    Usage(String),
    /// A word that names no command.
    Unknown(String),
}

/// The usage line of `session`.
pub open spec fn session_usage() -> Seq<char> {
    "usage: oneos session status|start|stop"@
}

/// The usage line of `service`.
pub open spec fn service_usage() -> Seq<char> {
    "usage: oneos service list | service status|start|stop|restart <unit>"@
}

/// The usage line of `logs`.
pub open spec fn logs_usage() -> Seq<char> {
    "usage: oneos logs [-u unit] [-n lines]"@
}

/// The usage line of `settings`.
pub open spec fn settings_usage() -> Seq<char> {
    "usage: oneos settings [show|hostname <name>|timezone <zone>]"@
}

/// The session operation that `w` names.
pub open spec fn session_op_word(w: Seq<char>) -> Option<SessionOp> {
    if w == "status"@ {
        Some(SessionOp::Status)
    } else if w == "start"@ {
        Some(SessionOp::Start)
    } else if w == "stop"@ {
        Some(SessionOp::Stop)
    } else {
        None
    }
}

/// The unit operation that `w` names.
pub open spec fn service_op_word(w: Seq<char>) -> Option<ServiceOp> {
    if w == "status"@ {
        Some(ServiceOp::Status)
    } else if w == "start"@ {
        Some(ServiceOp::Start)
    } else if w == "stop"@ {
        Some(ServiceOp::Stop)
    } else if w == "restart"@ {
        Some(ServiceOp::Restart)
    } else {
        None
    }
}

/// The unit and line count that the options `rest` of `logs` give, read
/// from the left on top of `unit` and `lines` (a later option wins), or
/// `None` where an option is unknown, lacks its value, or `-n` is not a
/// count that fits a `u32`.
pub open spec fn logs_options(
    rest: Seq<Seq<char>>,
    unit: Option<Seq<char>>,
    lines: Option<nat>,
) -> Option<(Option<Seq<char>>, Option<nat>)>
    decreases rest.len(),
{
    if rest.len() == 0 {
        Some((unit, lines))
    } else if rest.len() >= 2 && rest[0] == "-u"@ {
        logs_options(rest.skip(2), Some(rest[1]), lines)
    } else if rest.len() >= 2 && rest[0] == "-n"@ && parse_unsigned(rest[1], u32::MAX as nat)
        is Some {
        logs_options(rest.skip(2), unit, parse_unsigned(rest[1], u32::MAX as nat))
    } else {
        None
    }
}

/// The views of an optional string.
pub open spec fn opt_view(s: Option<String>) -> Option<Seq<char>> {
    match s {
        Some(t) => Some(t@),
        None => None,
    }
}

/// An optional count as a natural number.
pub open spec fn opt_count(n: Option<u32>) -> Option<nat> {
    match n {
        Some(k) => Some(k as nat),
        None => None,
    }
}

/// Whether `c` is the command that the arguments `args` (without the
/// program's name) select: the first word names the command (`status`
/// where there is none); `session`, `service`, `logs` and `settings` read
/// the words after it and give their usage line where those do not fit.
pub open spec fn names_command(args: Seq<Seq<char>>, c: Command) -> bool {
    if args.len() == 0 {
        c is Status
    } else {
        let word = args[0];
        let rest = args.skip(1);
        if word == "status"@ {
            c is Status
        } else if word == "ping"@ {
            c is Ping
        } else if word == "poweroff"@ {
            c is Poweroff
        } else if word == "reboot"@ {
            c is Reboot
        } else if word == "version"@ {
            c is Version
        } else if word == "help"@ || word == "--help"@ || word == "-h"@ {
            c is Help
        } else if word == "session"@ {
            if rest.len() == 1 && session_op_word(rest[0]) is Some {
                c matches Command::Session(op) && Some(op) == session_op_word(rest[0])
            } else {
                c matches Command::Usage(m) && m@ == session_usage()
            }
        } else if word == "service"@ {
            if rest.len() == 1 && rest[0] == "list"@ {
                c is ServiceList
            } else if rest.len() == 2 && service_op_word(rest[0]) is Some {
                c matches Command::Service(op, u) && Some(op) == service_op_word(rest[0]) && u@
                    == rest[1]
            } else {
                c matches Command::Usage(m) && m@ == service_usage()
            }
        } else if word == "logs"@ {
            match logs_options(rest, None, None) {
                Some((u, n)) => c matches Command::Logs { unit, lines } && opt_view(unit) == u
                    && opt_count(lines) == n,
                None => c matches Command::Usage(m) && m@ == logs_usage(),
            }
        } else if word == "settings"@ {
            if rest.len() == 0 || (rest.len() == 1 && rest[0] == "show"@) {
                c is SettingsShow
            } else if rest.len() == 2 && rest[0] == "hostname"@ {
                c matches Command::SetHostname(h) && h@ == rest[1]
            } else if rest.len() == 2 && rest[0] == "timezone"@ {
                c matches Command::SetTimezone(z) && z@ == rest[1]
            } else {
                c matches Command::Usage(m) && m@ == settings_usage()
            }
        } else {
            c matches Command::Unknown(w) && w@ == word
        }
    }
}

/// Whether the argument `s` is the word `w`.
fn is_word(s: &String, w: &str) -> (res: bool)
    ensures
        res == (s@ == w@),
{
    let cs = chars_of(s.as_str());
    chars_eq(&cs, w)
}

/// Reads the words after `session`.
fn parse_session(args: &[String]) -> (res: Command)
    requires
        args@.len() >= 1,
    ensures
        ({
            let rest = strings_view(args@).skip(1);
            if rest.len() == 1 && session_op_word(rest[0]) is Some {
                res matches Command::Session(op) && Some(op) == session_op_word(rest[0])
            } else {
                res matches Command::Usage(m) && m@ == session_usage()
            }
        }),
{
    let ghost rest = strings_view(args@).skip(1);
    if args.len() == 2 {
        assert(rest[0] == args@[1]@);
        if is_word(&args[1], "status") {
            return Command::Session(SessionOp::Status);
        } else if is_word(&args[1], "start") {
            return Command::Session(SessionOp::Start);
        } else if is_word(&args[1], "stop") {
            return Command::Session(SessionOp::Stop);
        }
    }
    Command::Usage(String::from_str("usage: oneos session status|start|stop"))
}

/// Reads the words after `service`.
fn parse_service(args: &[String]) -> (res: Command)
    requires
        args@.len() >= 1,
    ensures
        ({
            let rest = strings_view(args@).skip(1);
            if rest.len() == 1 && rest[0] == "list"@ {
                res is ServiceList
            } else if rest.len() == 2 && service_op_word(rest[0]) is Some {
                res matches Command::Service(op, u) && Some(op) == service_op_word(rest[0]) && u@
                    == rest[1]
            } else {
                res matches Command::Usage(m) && m@ == service_usage()
            }
        }),
{
    let ghost rest = strings_view(args@).skip(1);
    if args.len() == 2 {
        assert(rest[0] == args@[1]@);
        if is_word(&args[1], "list") {
            return Command::ServiceList;
        }
    }
    if args.len() == 3 {
        assert(rest[0] == args@[1]@ && rest[1] == args@[2]@);
        let unit = args[2].clone();
        if is_word(&args[1], "status") {
            return Command::Service(ServiceOp::Status, unit);
        } else if is_word(&args[1], "start") {
            return Command::Service(ServiceOp::Start, unit);
        } else if is_word(&args[1], "stop") {
            return Command::Service(ServiceOp::Stop, unit);
        } else if is_word(&args[1], "restart") {
            return Command::Service(ServiceOp::Restart, unit);
        }
    }
    Command::Usage(
        String::from_str("usage: oneos service list | service status|start|stop|restart <unit>"),
    )
}

/// Reads the options after `logs`.
fn parse_logs(args: &[String]) -> (res: Command)
    requires
        args@.len() >= 1,
    ensures
        match logs_options(strings_view(args@).skip(1), None, None) {
            Some((u, n)) => res matches Command::Logs { unit, lines } && opt_view(unit) == u
                && opt_count(lines) == n,
            None => res matches Command::Usage(m) && m@ == logs_usage(),
        },
{
    let ghost all = strings_view(args@);
    let mut unit: Option<String> = None;
    let mut lines: Option<u32> = None;
    let mut i: usize = 1;
    while i < args.len()
        invariant
            1 <= i <= args@.len(),
            all == strings_view(args@),
            logs_options(all.skip(1), None, None) == logs_options(
                all.skip(i as int),
                opt_view(unit),
                opt_count(lines),
            ),
        decreases args.len() - i,
    {
        let ghost rest = all.skip(i as int);
        if i + 1 < args.len() {
            assert(rest[0] == args@[i as int]@ && rest[1] == args@[i + 1]@);
            assert(rest.skip(2) =~= all.skip(i + 2));
            if is_word(&args[i], "-u") {
                unit = Some(args[i + 1].clone());
                i = i + 2;
                continue;
            } else if is_word(&args[i], "-n") {
                match parse_u32(args[i + 1].as_str()) {
                    Some(n) => {
                        lines = Some(n);
                        i = i + 2;
                        continue;
                    },
                    None => {},
                }
            }
        }
        assert(logs_options(rest, opt_view(unit), opt_count(lines)) is None) by {
            assert(rest.len() > 0);
            assert(rest[0] == args@[i as int]@);
        }
        return Command::Usage(String::from_str("usage: oneos logs [-u unit] [-n lines]"));
    }
    assert(all.skip(i as int) =~= Seq::<Seq<char>>::empty());
    Command::Logs { unit, lines }
}

/// Reads the words after `settings`.
fn parse_settings(args: &[String]) -> (res: Command)
    requires
        args@.len() >= 1,
    ensures
        ({
            let rest = strings_view(args@).skip(1);
            if rest.len() == 0 || (rest.len() == 1 && rest[0] == "show"@) {
                res is SettingsShow
            } else if rest.len() == 2 && rest[0] == "hostname"@ {
                res matches Command::SetHostname(h) && h@ == rest[1]
            } else if rest.len() == 2 && rest[0] == "timezone"@ {
                res matches Command::SetTimezone(z) && z@ == rest[1]
            } else {
                res matches Command::Usage(m) && m@ == settings_usage()
            }
        }),
{
    let ghost rest = strings_view(args@).skip(1);
    if args.len() == 1 {
        return Command::SettingsShow;
    }
    if args.len() == 2 {
        assert(rest[0] == args@[1]@);
        if is_word(&args[1], "show") {
            return Command::SettingsShow;
        }
    }
    if args.len() == 3 {
        assert(rest[0] == args@[1]@ && rest[1] == args@[2]@);
        if is_word(&args[1], "hostname") {
            return Command::SetHostname(args[2].clone());
        } else if is_word(&args[1], "timezone") {
            return Command::SetTimezone(args[2].clone());
        }
    }
    Command::Usage(
        String::from_str("usage: oneos settings [show|hostname <name>|timezone <zone>]"),
    )
}

/// The command that the arguments (without the program's name) select.
pub fn parse_command(args: &[String]) -> (res: Command)
    ensures
        names_command(strings_view(args@), res),
{
    if args.len() == 0 {
        return Command::Status;
    }
    assert(strings_view(args@)[0] == args@[0]@);
    let word = &args[0];
    if is_word(word, "status") {
        Command::Status
    } else if is_word(word, "ping") {
        Command::Ping
    } else if is_word(word, "poweroff") {
        Command::Poweroff
    } else if is_word(word, "reboot") {
        Command::Reboot
    } else if is_word(word, "version") {
        Command::Version
    } else if is_word(word, "help") || is_word(word, "--help") || is_word(word, "-h") {
        Command::Help
    } else if is_word(word, "session") {
        parse_session(args)
    } else if is_word(word, "service") {
        parse_service(args)
    } else if is_word(word, "logs") {
        parse_logs(args)
    } else if is_word(word, "settings") {
        parse_settings(args)
    } else {
        Command::Unknown(args[0].clone())
    }
}

/// The method of a session operation.
pub open spec fn session_method(op: SessionOp) -> Method {
    match op {
        SessionOp::Status => Method::SessionStatus,
        SessionOp::Start => Method::SessionStart,
        SessionOp::Stop => Method::SessionStop,
    }
}

/// The method of a unit operation.
pub open spec fn service_method(op: ServiceOp) -> Method {
    match op {
        ServiceOp::Status => Method::ServiceStatus,
        ServiceOp::Start => Method::ServiceStart,
        ServiceOp::Stop => Method::ServiceStop,
        ServiceOp::Restart => Method::ServiceRestart,
    }
}

/// Whether `v` is the parameter object of `logs` for `unit` and `lines`:
/// a string member `unit` where a unit is given, then a number member
/// `lines` (in decimal) where a count is given.
pub open spec fn is_logs_object(v: JsonValue, unit: Option<Seq<char>>, lines: Option<nat>) -> bool {
    match v {
        JsonValue::Object(members) => {
            let ms = members@;
            let k: int = if unit is Some {
                1
            } else {
                0
            };
            &&& ms.len() == k + if lines is Some {
                1int
            } else {
                0int
            }
            &&& (unit matches Some(u) ==> (ms[0].0@ == "unit"@ && (ms[0].1 matches JsonValue::Str(
                t,
            ) && t@ == u)))
            &&& (lines matches Some(n) ==> (ms[k].0@ == "lines"@ && (ms[k].1 matches JsonValue::Number(
                t,
            ) && t@ == decimal_text(n))))
        },
        _ => false,
    }
}

/// Whether `r` is the request that the client sends for `c` (call id 1):
/// the method of the command, with the unit, the journal options, the new
/// host name or the new time zone as its parameters, and no parameters
/// (`null`) for the others. `version`, `help` and the commands given bad
/// arguments send nothing.
pub open spec fn sends(c: Command, r: Request) -> bool {
    &&& r.id == 1
    &&& match c {
        Command::Status => r.method == Method::Status && r.params == JsonValue::Null,
        Command::Ping => r.method == Method::Ping && r.params == JsonValue::Null,
        Command::Poweroff => r.method == Method::Poweroff && r.params == JsonValue::Null,
        Command::Reboot => r.method == Method::Reboot && r.params == JsonValue::Null,
        Command::Session(op) => r.method == session_method(op) && r.params == JsonValue::Null,
        Command::ServiceList => r.method == Method::ServiceList && r.params == JsonValue::Null,
        Command::Service(op, u) => r.method == service_method(op) && is_text_object(
            r.params,
            "unit"@,
            u@,
        ),
        Command::Logs { unit, lines } => r.method == Method::Logs && is_logs_object(
            r.params,
            opt_view(unit),
            opt_count(lines),
        ),
        Command::SettingsShow => r.method == Method::SettingsShow && r.params == JsonValue::Null,
        Command::SetHostname(h) => r.method == Method::SettingsSetHostname && is_text_object(
            r.params,
            "hostname"@,
            h@,
        ),
        Command::SetTimezone(z) => r.method == Method::SettingsSetTimezone && is_text_object(
            r.params,
            "timezone"@,
            z@,
        ),
        _ => false,
    }
}

/// Whether `c` makes no call: `version`, `help`, and the commands that
/// were given bad arguments or name nothing.
pub open spec fn is_local(c: Command) -> bool {
    c is Version || c is Help || c is Usage || c is Unknown
}

/// A request with parameters `params`, call id 1.
fn call_with(method: Method, params: JsonValue) -> (res: Request)
    ensures
        res.id == 1,
        res.method == method,
        res.params == params,
{
    Request { id: 1, method, params }
}

/// The request the client sends for `command`, or `None` where it makes no
/// call.
pub fn command_request(command: &Command) -> (res: Option<Request>)
    ensures
        match res {
            Some(r) => sends(*command, r),
            None => is_local(*command),
        },
{
    match command {
        Command::Status => Some(Request::new(1, Method::Status)),
        Command::Ping => Some(Request::new(1, Method::Ping)),
        Command::Poweroff => Some(Request::new(1, Method::Poweroff)),
        Command::Reboot => Some(Request::new(1, Method::Reboot)),
        Command::Session(op) => {
            let method = match op {
                SessionOp::Status => Method::SessionStatus,
                SessionOp::Start => Method::SessionStart,
                SessionOp::Stop => Method::SessionStop,
            };
            Some(Request::new(1, method))
        },
        Command::ServiceList => Some(Request::new(1, Method::ServiceList)),
        Command::Service(op, unit) => {
            let method = match op {
                ServiceOp::Status => Method::ServiceStatus,
                ServiceOp::Start => Method::ServiceStart,
                ServiceOp::Stop => Method::ServiceStop,
                ServiceOp::Restart => Method::ServiceRestart,
            };
            Some(call_with(method, JsonValue::text_object("unit", unit.as_str())))
        },
        Command::Logs { unit, lines } => {
            let mut members: Vec<(String, JsonValue)> = Vec::new();
            match unit {
                Some(u) => {
                    members.push((String::from_str("unit"), JsonValue::Str(u.clone())));
                },
                None => {},
            }
            match lines {
                Some(n) => {
                    members.push((String::from_str("lines"), JsonValue::Number(decimal(*n as u64))));
                },
                None => {},
            }
            Some(call_with(Method::Logs, JsonValue::Object(members)))
        },
        Command::SettingsShow => Some(Request::new(1, Method::SettingsShow)),
        Command::SetHostname(h) => Some(
            call_with(Method::SettingsSetHostname, JsonValue::text_object("hostname", h.as_str())),
        ),
        Command::SetTimezone(z) => Some(
            call_with(Method::SettingsSetTimezone, JsonValue::text_object("timezone", z.as_str())),
        ),
        _ => None,
    }
}

/// The daemon reads back what the client sends: the unit of a unit
/// command with the operation it asked for, the unit and line count of
/// `logs`, the new host name and the new time zone.
pub proof fn lemma_requests_read_back(c: Command, r: Request)
    requires
        sends(c, r),
    ensures
        c matches Command::Service(op, u) ==> (unit_param(r.params) == Some(u@) && service_op_of(
            r.method,
        ) == op),
        c matches Command::Logs { unit, lines } ==> logs_params(r.params) == Some(
            (opt_view(unit), opt_count(lines)),
        ),
        c matches Command::SetHostname(h) ==> text_member(r.params, "hostname"@) == Some(h@),
        c matches Command::SetTimezone(z) ==> text_member(r.params, "timezone"@) == Some(z@),
        c matches Command::Session(op) ==> (r.method.spec_is_write() <==> op != SessionOp::Status),
        c matches Command::Service(op, u) ==> (r.method.spec_is_write() <==> op
            != ServiceOp::Status),
{
    reveal_with_fuel(member, 3);
    reveal_strlit("unit");
    reveal_strlit("lines");
    assert("unit"@.len() != "lines"@.len());
    if let Command::Logs { unit, lines } = c {
        if let JsonValue::Object(members) = r.params {
            let ms = members@;
            let u = opt_view(unit);
            let n = opt_count(lines);
            if let Some(k) = n {
                lemma_decimal_roundtrip(k, u32::MAX as nat);
            }
            if ms.len() >= 1 {
                assert(ms.drop_first().len() == ms.len() - 1);
            }
            if ms.len() == 2 {
                assert(ms.drop_first()[0] == ms[1]);
                assert(member(ms.drop_first().drop_first(), "unit"@) is None);
                assert(member(ms.drop_first(), "lines"@) == Some(ms[1].1));
            }
            assert(optional_text(member(ms, "unit"@)) == Some(u));
            assert(optional_count(member(ms, "lines"@)) == Some(n));
        }
    }
}

/// Outside development mode, what the client sends reaches the daemon's
/// action of the same kind: `poweroff` and `reboot` the power action of
/// that name, a session command the same session operation, a unit command
/// the same operation on that very unit, a settings change that very host
/// name or time zone; a unit or settings request is answered at once
/// (refused) only where the name fails the daemon's check.
pub proof fn lemma_requests_reach_their_action(c: Command, r: Request, d: Dispatch)
    requires
        sends(c, r),
        dispatched(r, false, d),
    ensures
        c is Poweroff ==> d == (Dispatch::Power { id: 1, action: PowerAction::Poweroff }),
        c is Reboot ==> d == (Dispatch::Power { id: 1, action: PowerAction::Reboot }),
        c matches Command::Session(op) ==> d == (Dispatch::Session { id: 1, op }),
        c matches Command::Service(op, u) ==> if valid_unit_name(u@) {
            d matches Dispatch::InspectUnit { id: _, op: o, unit } && o == op && unit@ == u@
        } else {
            d is Respond
        },
        c matches Command::SetHostname(h) ==> if valid_hostname(h@) {
            d matches Dispatch::SetHostname { id: _, hostname } && hostname@ == h@
        } else {
            d is Respond
        },
        c matches Command::SetTimezone(z) ==> if valid_zone_name(z@) {
            d matches Dispatch::SetTimezone { id: _, zone } && zone@ == z@
        } else {
            d is Respond
        },
{
    lemma_requests_read_back(c, r);
}

/// The method a command sends is named by the command's words: `status`,
/// `ping`, `poweroff`, `reboot` and `logs` by the word itself (no word at
/// all is `status`), `session <op>`, `service <op> <unit>` and `service
/// list` by the first two words joined with `_`, `settings hostname` and
/// `settings timezone` by `settings_set_` and the second word, and
/// `settings` and `settings show` by `settings_show`.
pub proof fn lemma_commands_send_their_names(args: Seq<Seq<char>>, c: Command, r: Request)
    requires
        names_command(args, c),
        sends(c, r),
    ensures
        args.len() == 0 ==> r.method.wire_name() == "status"@,
        args.len() > 0 && (c is Status || c is Ping || c is Poweroff || c is Reboot || c is Logs)
            ==> r.method.wire_name() == args[0],
        c is Session || c is Service || c is ServiceList ==> r.method.wire_name() == args[0]
            + "_"@ + args[1],
        c is SetHostname || c is SetTimezone ==> r.method.wire_name() == "settings_set_"@
            + args[1],
        c is SettingsShow ==> r.method.wire_name() == "settings_show"@,
{
    reveal_strlit("status");
    reveal_strlit("ping");
    reveal_strlit("poweroff");
    reveal_strlit("reboot");
    reveal_strlit("logs");
    reveal_strlit("help");
    reveal_strlit("--help");
    reveal_strlit("-h");
    reveal_strlit("version");
    reveal_strlit("session");
    reveal_strlit("service");
    reveal_strlit("settings");
    reveal_strlit("start");
    reveal_strlit("stop");
    reveal_strlit("restart");
    reveal_strlit("list");
    reveal_strlit("show");
    reveal_strlit("hostname");
    reveal_strlit("timezone");
    reveal_strlit("_");
    reveal_strlit("settings_set_");
    reveal_strlit("session_status");
    reveal_strlit("session_start");
    reveal_strlit("session_stop");
    reveal_strlit("service_list");
    reveal_strlit("service_status");
    reveal_strlit("service_start");
    reveal_strlit("service_stop");
    reveal_strlit("service_restart");
    reveal_strlit("settings_show");
    reveal_strlit("settings_set_hostname");
    reveal_strlit("settings_set_timezone");
    if args.len() > 0 {
        let w = args[0];
        let rest = args.skip(1);
        if rest.len() > 0 {
            assert(rest[0] == args[1]);
        }
        if rest.len() > 1 {
            assert(rest[1] == args[2]);
        }
        match c {
            Command::Session(op) => {
                assert(w == "session"@);
                assert("session_status"@ =~= "session"@ + "_"@ + "status"@);
                assert("session_start"@ =~= "session"@ + "_"@ + "start"@);
                assert("session_stop"@ =~= "session"@ + "_"@ + "stop"@);
            },
            Command::Service(op, u) => {
                assert(w == "service"@);
                assert("service_status"@ =~= "service"@ + "_"@ + "status"@);
                assert("service_start"@ =~= "service"@ + "_"@ + "start"@);
                assert("service_stop"@ =~= "service"@ + "_"@ + "stop"@);
                assert("service_restart"@ =~= "service"@ + "_"@ + "restart"@);
            },
            Command::ServiceList => {
                assert(w == "service"@);
                assert("service_list"@ =~= "service"@ + "_"@ + "list"@);
            },
            Command::SetHostname(h) => {
                assert("settings_set_hostname"@ =~= "settings_set_"@ + "hostname"@);
            },
            Command::SetTimezone(z) => {
                assert("settings_set_timezone"@ =~= "settings_set_"@ + "timezone"@);
            },
            _ => {},
        }
    }
}

/// The uptime text shows the uptime: for every split of `secs` into hours
/// `h`, minutes `m < 60` and seconds `s < 60`, it is `<h>h <m>m <s>s`, with
/// the hours left out while they are 0 and the minutes too while both are
/// 0.
pub proof fn lemma_uptime_shows_its_parts(secs: nat, h: nat, m: nat, s: nat)
    requires
        m < 60,
        s < 60,
        h * 3600 + m * 60 + s == secs,
    ensures
        uptime_text(secs) == if h > 0 {
            decimal_text(h) + seq!['h', ' '] + decimal_text(m) + seq!['m', ' '] + decimal_text(s)
                + seq!['s']
        } else if m > 0 {
            decimal_text(m) + seq!['m', ' '] + decimal_text(s) + seq!['s']
        } else {
            decimal_text(s) + seq!['s']
        },
{
    assert(m * 60 + s < 3600);
    assert(secs == h * 3600 + (m * 60 + s)) by (nonlinear_arith)
        requires
            h * 3600 + m * 60 + s == secs,
    ;
    lemma_fundamental_div_mod_converse(secs as int, 3600, h as int, (m * 60 + s) as int);
    lemma_fundamental_div_mod_converse((m * 60 + s) as int, 60, m as int, s as int);
    assert(secs == (h * 60 + m) * 60 + s) by (nonlinear_arith)
        requires
            h * 3600 + m * 60 + s == secs,
    ;
    lemma_fundamental_div_mod_converse(secs as int, 60, (h * 60 + m) as int, s as int);
}

/// What the client prints once its call succeeded.
#[derive(Debug, Clone, Copy, PartialEq, Eq, Structural)]
pub enum Reply {
    /// `status_lines` of the status in the result.
    StatusReport,
    /// `pong`.
    Pong,
    /// `session_line` of the session state in the result.
    SessionReport,
    /// `service_rows` of the units in the result.
    UnitRows,
    /// `service_lines` of the unit in the result.
    UnitReport,
    /// The `journal_text` of the result, as it is.
    Journal,
    /// `settings_lines` of the settings in the result.
    SettingsReport,
    /// Nothing: that the call succeeded is all.
    Nothing,
}

/// What is printed for `c`: the reports of the commands that read, and
/// nothing for those that change the system.
pub open spec fn spec_reply(c: Command) -> Reply {
    match c {
        Command::Status => Reply::StatusReport,
        Command::Ping => Reply::Pong,
        Command::Session(SessionOp::Status) => Reply::SessionReport,
        Command::ServiceList => Reply::UnitRows,
        Command::Service(ServiceOp::Status, _) => Reply::UnitReport,
        Command::Logs { .. } => Reply::Journal,
        Command::SettingsShow => Reply::SettingsReport,
        _ => Reply::Nothing,
    }
}

/// What the client prints for `command` once its call succeeded.
pub fn reply_of(command: &Command) -> (res: Reply)
    ensures
        res == spec_reply(*command),
{
    match command {
        Command::Status => Reply::StatusReport,
        Command::Ping => Reply::Pong,
        Command::Session(SessionOp::Status) => Reply::SessionReport,
        Command::ServiceList => Reply::UnitRows,
        Command::Service(ServiceOp::Status, _) => Reply::UnitReport,
        Command::Logs { .. } => Reply::Journal,
        Command::SettingsShow => Reply::SettingsReport,
        _ => Reply::Nothing,
    }
}

/// Why the client gives up.
#[derive(Debug)]
pub enum Failure {
    /// The daemon's socket could not be reached; the reason.
    Connect(String),
    /// The call failed on the way; the reason.
    Request(String),
    /// The daemon answered with an error; its message.
    Rejected(String),
    /// The status response could not be read as a status.
    Malformed,
    /// The word names no command.
    UnknownCommand(String),
    /// The result of a call could not be read; the method's name.
    MalformedReply(String),
    /// A command was given arguments it does not take; its usage line.
    Usage(String),
}

impl Failure {
    /// The exit status: 3 when the daemon could not be reached or the call
    /// failed, 4 when the daemon refused, 2 for a bad answer or a bad
    /// command.
    pub open spec fn spec_exit_code(self) -> i32 {
        match self {
            Failure::Connect(_) | Failure::Request(_) => 3,
            Failure::Rejected(_) => 4,
            Failure::Malformed | Failure::UnknownCommand(_) | Failure::MalformedReply(_)
            | Failure::Usage(_) => 2,
        }
    }

    /// What the client prints to standard error.
    pub open spec fn text(self) -> Seq<char> {
        match self {
            Failure::Connect(e) => "oneos: cannot connect to oneosd: "@ + e@,
            Failure::Request(e) => "oneos: request failed: "@ + e@,
            Failure::Rejected(m) => "oneos: "@ + m@,
            Failure::Malformed => "oneos: malformed status response"@,
            Failure::UnknownCommand(w) => "oneos: unknown command: "@ + w@,
            Failure::MalformedReply(m) => "oneos: malformed "@ + m@ + " response"@,
            Failure::Usage(u) => u@,
        }
    }

    /// The exit status of the client.
    pub fn exit_code(&self) -> (res: i32)
        ensures
            res == self.spec_exit_code(),
    {
        match self {
            Failure::Connect(_) | Failure::Request(_) => 3,
            Failure::Rejected(_) => 4,
            Failure::Malformed | Failure::UnknownCommand(_) | Failure::MalformedReply(_)
            | Failure::Usage(_) => 2,
        }
    }

    /// The line the client prints to standard error.
    pub fn message(&self) -> (res: String)
        ensures
            res@ == self.text(),
    {
        let mut out: Vec<char> = Vec::new();
        match self {
            Failure::Connect(e) => {
                push_str(&mut out, "oneos: cannot connect to oneosd: ");
                push_str(&mut out, e.as_str());
            },
            Failure::Request(e) => {
                push_str(&mut out, "oneos: request failed: ");
                push_str(&mut out, e.as_str());
            },
            Failure::Rejected(m) => {
                push_str(&mut out, "oneos: ");
                push_str(&mut out, m.as_str());
            },
            Failure::Malformed => {
                push_str(&mut out, "oneos: malformed status response");
            },
            Failure::UnknownCommand(w) => {
                push_str(&mut out, "oneos: unknown command: ");
                push_str(&mut out, w.as_str());
            },
            Failure::MalformedReply(m) => {
                push_str(&mut out, "oneos: malformed ");
                push_str(&mut out, m.as_str());
                push_str(&mut out, " response");
            },
            Failure::Usage(u) => {
                push_str(&mut out, u.as_str());
            },
        }
        assert(out@ =~= self.text());
        string_of(&out)
    }
}

/// Judges the daemon's answer: a response that is not `ok` becomes the
/// failure `Rejected` with the response's error message.
pub fn accept_response(response: Response) -> (res: Result<Response, Failure>)
    ensures
        response.ok ==> res == Ok::<Response, Failure>(response),
        !response.ok ==> (res matches Err(Failure::Rejected(m)) && m@ == error_text(response)),
{
    if response.ok {
        Ok(response)
    } else {
        let m = response.error_message();
        Err(Failure::Rejected(m))
    }
}

/// The outcome of a command that only needs the call to succeed
/// (`poweroff`, `reboot`).
pub fn action(outcome: Result<Response, Failure>) -> (res: Result<(), Failure>)
    ensures
        outcome is Ok ==> res is Ok,
        outcome matches Err(f) ==> res == Err::<(), Failure>(f),
{
    match outcome {
        Ok(_) => Ok(()),
        Err(f) => Err(f),
    }
}

/// Hours, minutes and seconds of `secs`: `"<h>h <m>m <s>s"`, without the
/// hours while they are 0, and without the minutes too while both are 0.
pub open spec fn uptime_text(secs: nat) -> Seq<char> {
    let h = secs / 3600;
    let m = (secs % 3600) / 60;
    let s = secs % 60;
    if h > 0 {
        decimal_text(h) + seq!['h', ' '] + decimal_text(m) + seq!['m', ' '] + decimal_text(s)
            + seq!['s']
    } else if m > 0 {
        decimal_text(m) + seq!['m', ' '] + decimal_text(s) + seq!['s']
    } else {
        decimal_text(s) + seq!['s']
    }
}

/// The hours, minutes and seconds shown for an uptime make up the uptime,
/// and minutes and seconds stay below 60.
pub proof fn lemma_uptime_parts(secs: nat)
    ensures
        (secs / 3600) * 3600 + ((secs % 3600) / 60) * 60 + secs % 60 == secs,
        (secs % 3600) / 60 < 60,
        secs % 60 < 60,
{
    assert((secs % 3600) % 60 == secs % 60) by (nonlinear_arith);
}

/// Formats an uptime for people: `1h 1m 1s`, `2m 5s`, `42s`.
pub fn format_uptime(secs: u64) -> (res: String)
    ensures
        res@ == uptime_text(secs as nat),
{
    let hours = secs / 3600;
    let minutes = (secs % 3600) / 60;
    let seconds = secs % 60;
    let mut out: Vec<char> = Vec::new();
    if hours > 0 {
        push_decimal(&mut out, hours);
        out.push('h');
        out.push(' ');
        push_decimal(&mut out, minutes);
        out.push('m');
        out.push(' ');
        push_decimal(&mut out, seconds);
        out.push('s');
    } else if minutes > 0 {
        push_decimal(&mut out, minutes);
        out.push('m');
        out.push(' ');
        push_decimal(&mut out, seconds);
        out.push('s');
    } else {
        push_decimal(&mut out, seconds);
        out.push('s');
    }
    assert(out@ =~= uptime_text(secs as nat));
    string_of(&out)
}

/// The lines `oneos status` prints: the version, the host name, the system,
/// the uptime and the boot id, each after a label padded to one width.
pub open spec fn status_report(status: Status) -> Seq<Seq<char>> {
    seq![
        "OneOS        "@ + status.version@,
        "Hostname     "@ + status.hostname@,
        "OS           "@ + status.os@,
        "Uptime       "@ + uptime_text(status.uptime_secs as nat),
        "Boot ID      "@ + status.boot_id@,
    ]
}

/// `label` followed by `value`.
fn labelled(label: &str, value: &str) -> (res: String)
    ensures
        res@ == label@ + value@,
{
    let mut out: Vec<char> = Vec::new();
    push_str(&mut out, label);
    push_str(&mut out, value);
    string_of(&out)
}

/// The lines `oneos status` prints for `status`.
pub fn status_lines(status: &Status) -> (res: Vec<String>)
    ensures
        res@.len() == 5,
        forall|i: int| 0 <= i < 5 ==> #[trigger] res@[i]@ == status_report(*status)[i],
{
    let mut res: Vec<String> = Vec::new();
    res.push(labelled("OneOS        ", status.version.as_str()));
    res.push(labelled("Hostname     ", status.hostname.as_str()));
    res.push(labelled("OS           ", status.os.as_str()));
    let uptime = format_uptime(status.uptime_secs);
    res.push(labelled("Uptime       ", uptime.as_str()));
    res.push(labelled("Boot ID      ", status.boot_id.as_str()));
    res
}

/// The line `oneos session status` prints.
pub open spec fn session_report(state: SessionState) -> Seq<char> {
    "Session      "@ + state.state@
}

/// The line `oneos session status` prints for `state`.
pub fn session_line(state: &SessionState) -> (res: String)
    ensures
        res@ == session_report(*state),
{
    labelled("Session      ", state.state.as_str())
}

/// The lines `oneos service status` prints: the unit, its load state, its
/// active state, its sub-state and its description.
pub open spec fn service_report(info: ServiceInfo) -> Seq<Seq<char>> {
    seq![
        "Unit         "@ + info.unit@,
        "Load         "@ + info.load@,
        "Active       "@ + info.active@,
        "Sub          "@ + info.sub@,
        "Description  "@ + info.description@,
    ]
}

/// The lines `oneos service status` prints for `info`.
pub fn service_lines(info: &ServiceInfo) -> (res: Vec<String>)
    ensures
        strings_view(res@) == service_report(*info),
{
    let mut res: Vec<String> = Vec::new();
    res.push(labelled("Unit         ", info.unit.as_str()));
    res.push(labelled("Load         ", info.load.as_str()));
    res.push(labelled("Active       ", info.active.as_str()));
    res.push(labelled("Sub          ", info.sub.as_str()));
    res.push(labelled("Description  ", info.description.as_str()));
    assert(strings_view(res@) =~= service_report(*info));
    res
}

/// The line `oneos service list` prints for one unit: its name, load
/// state, active state, sub-state and description, two spaces apart.
pub open spec fn service_row(info: ServiceInfo) -> Seq<char> {
    info.unit@ + "  "@ + info.load@ + "  "@ + info.active@ + "  "@ + info.sub@ + "  "@
        + info.description@
}

/// The line `oneos service list` prints for `info`.
fn service_row_text(info: &ServiceInfo) -> (res: String)
    ensures
        res@ == service_row(*info),
{
    let mut out: Vec<char> = Vec::new();
    push_str(&mut out, info.unit.as_str());
    push_str(&mut out, "  ");
    push_str(&mut out, info.load.as_str());
    push_str(&mut out, "  ");
    push_str(&mut out, info.active.as_str());
    push_str(&mut out, "  ");
    push_str(&mut out, info.sub.as_str());
    push_str(&mut out, "  ");
    push_str(&mut out, info.description.as_str());
    string_of(&out)
}

/// The lines `oneos service list` prints: one row per unit, in order.
pub fn service_rows(units: &Vec<ServiceInfo>) -> (res: Vec<String>)
    ensures
        strings_view(res@) == units@.map_values(|u: ServiceInfo| service_row(u)),
{
    let mut res: Vec<String> = Vec::new();
    let mut i: usize = 0;
    while i < units.len()
        invariant
            i <= units@.len(),
            strings_view(res@) == units@.subrange(0, i as int).map_values(
                |u: ServiceInfo| service_row(u),
            ),
        decreases units.len() - i,
    {
        let row = service_row_text(&units[i]);
        res.push(row);
        assert(units@.subrange(0, i + 1).map_values(|u: ServiceInfo| service_row(u))
            =~= units@.subrange(0, i as int).map_values(|u: ServiceInfo| service_row(u)).push(
            service_row(units@[i as int]),
        ));
        assert(strings_view(res@) =~= units@.subrange(0, i + 1).map_values(
            |u: ServiceInfo| service_row(u),
        ));
        i = i + 1;
    }
    assert(units@.subrange(0, units@.len() as int) =~= units@);
    res
}

/// The lines `oneos settings` prints: the host name, the time zone and the
/// locale.
pub open spec fn settings_report(settings: Settings) -> Seq<Seq<char>> {
    seq![
        "Hostname     "@ + settings.hostname@,
        "Timezone     "@ + settings.timezone@,
        "Locale       "@ + settings.locale@,
    ]
}

/// The lines `oneos settings` prints for `settings`.
pub fn settings_lines(settings: &Settings) -> (res: Vec<String>)
    ensures
        strings_view(res@) == settings_report(*settings),
{
    let mut res: Vec<String> = Vec::new();
    res.push(labelled("Hostname     ", settings.hostname.as_str()));
    res.push(labelled("Timezone     ", settings.timezone.as_str()));
    res.push(labelled("Locale       ", settings.locale.as_str()));
    assert(strings_view(res@) =~= settings_report(*settings));
    res
}

/// The journal text in the result of `logs`: the string member `journal`.
pub fn journal_text(result: &Option<JsonValue>) -> (res: Option<String>)
    ensures
        match result {
            Some(v) => opt_view(res) == text_member(*v, "journal"@),
            None => res is None,
        },
{
    match result {
        Some(v) => text_param(v, "journal"),
        None => None,
    }
}

/// What `oneos help` prints.
pub const USAGE: &'static str = "usage: oneos <command>
  status                                   system status
  ping                                     check that oneosd answers
  session status|start|stop                graphical session
  service list                             units
  service status|start|stop|restart <unit>
  logs [-u unit] [-n lines]                journal
  settings [show|hostname <name>|timezone <zone>]
  poweroff | reboot
  version | help";

} // verus!
