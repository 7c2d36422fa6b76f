//! The decisions of `oneosd`: how each request is answered, what the status
//! report holds, how a request line is handled, when the socket inherited
//! from systemd is used, and how a stale socket file is dealt with.
use vstd::prelude::*;

use crate::proto::{
    JsonValue, LogsParam, Method, Request, Response, ServiceInfo, SessionState, Status, UnitParam,
    is_flag_object, is_text_object, logs_params, text_member, text_param, unit_param,
};
use crate::settings::{check_hostname, check_zone_name, valid_hostname, valid_zone_name};
use crate::text::{
    chars_eq, chars_of, decimal, decimal_text, find_value, first_value, is_whitespace, is_ws,
    joined, lines, parse_u32, parse_unsigned, push_str, split_lines, strip_both, strip_bounds, strip_pred,
    string_of, sub_chars, trim, trimmed, views,
};

verus! {

/// Whether `r` is a failed response to call `id` with error `code` and
/// `message`.
pub open spec fn is_error_response(r: Response, id: u64, code: Seq<char>, message: Seq<char>) -> bool {
    &&& r.id == id
    &&& !r.ok
    &&& r.result is None
    &&& r.error matches Some(e) && e.code@ == code && e.message@ == message
}

/// Whether `r` carries a result that is `{"<key>": <b>}`.
pub open spec fn result_is_flag(r: Response, key: Seq<char>, b: bool) -> bool {
    match r.result {
        Some(v) => is_flag_object(v, key, b),
        None => false,
    }
}

/// Whether `r` carries a result that is `{"<key>": "<s>"}`.
pub open spec fn result_is_text(r: Response, key: Seq<char>, s: Seq<char>) -> bool {
    match r.result {
        Some(v) => is_text_object(v, key, s),
        None => false,
    }
}

/// The power operations `oneosd` asks systemd for.
#[derive(Debug, Clone, Copy, PartialEq, Eq, Structural)]
pub enum PowerAction {
    Poweroff,
    Reboot,
}

impl PowerAction {
    /// The `systemctl` verb of the action.
    pub open spec fn spec_verb(self) -> Seq<char> {
        match self {
            PowerAction::Poweroff => "poweroff"@,
            PowerAction::Reboot => "reboot"@,
        }
    }

    /// The `systemctl` verb of the action.
    pub fn verb(&self) -> (res: &'static str)
        ensures
            res@ == self.spec_verb(),
    {
        match self {
            PowerAction::Poweroff => "poweroff",
            PowerAction::Reboot => "reboot",
        }
    }
}

/// The unit that runs the graphical session.
pub const SESSION_UNIT: &'static str = "oneos-session.service";

/// The operations on the graphical session.
#[derive(Debug, Clone, Copy, PartialEq, Eq, Structural)]
pub enum SessionOp {
    Status,
    Start,
    Stop,
}

impl SessionOp {
    /// The `systemctl` verb of the operation.
    pub open spec fn spec_verb(self) -> Seq<char> {
        match self {
            SessionOp::Status => "is-active"@,
            SessionOp::Start => "start"@,
            SessionOp::Stop => "stop"@,
        }
    }

    /// The `systemctl` verb of the operation.
    pub fn verb(&self) -> (res: &'static str)
        ensures
            res@ == self.spec_verb(),
    {
        match self {
            SessionOp::Status => "is-active",
            SessionOp::Start => "start",
            SessionOp::Stop => "stop",
        }
    }
}

/// The operations on one systemd unit.
#[derive(Debug, Clone, Copy, PartialEq, Eq, Structural)]
pub enum ServiceOp {
    Status,
    Start,
    Stop,
    Restart,
}

impl ServiceOp {
    /// The `systemctl` verb of the operation.
    pub open spec fn spec_verb(self) -> Seq<char> {
        match self {
            ServiceOp::Status => "status"@,
            ServiceOp::Start => "start"@,
            ServiceOp::Stop => "stop"@,
            ServiceOp::Restart => "restart"@,
        }
    }

    /// The `systemctl` verb of the operation.
    pub fn verb(&self) -> (res: &'static str)
        ensures
            res@ == self.spec_verb(),
    {
        match self {
            ServiceOp::Status => "status",
            ServiceOp::Start => "start",
            ServiceOp::Stop => "stop",
            ServiceOp::Restart => "restart",
        }
    }
}

/// How many journal lines `logs` gives when no count is asked for.
pub const DEFAULT_LOG_LINES: u32 = 100;

/// What `oneosd` does with a request.
#[derive(Debug)]
pub enum Dispatch {
    /// Answer at once with this response.
    Respond(Response),
    /// Gather the system's status and answer call `id` with it.
    ReportStatus { id: u64 },
    /// Ask systemd for `action`, then answer call `id` with `power_outcome`.
    Power { id: u64, action: PowerAction },
    /// Run `systemctl <verb> oneos-session.service`, then answer call `id`
    /// with `session_outcome` (status) or `command_output` and `accepted`.
    Session { id: u64, op: SessionOp },
    /// Run `systemctl list-units --output=json`, then answer call `id` with
    /// the units it lists.
    ListServices { id: u64 },
    /// Run `show_args(unit)`, then go on with `unit_step`.
    InspectUnit { id: u64, op: ServiceOp, unit: String },
    /// Run `logs_args(unit, lines)`, then answer call `id` with
    /// `command_output` and `journal_reply`.
    Logs { id: u64, unit: Option<String>, lines: u32 },
    /// Read the host name, the `/etc/localtime` link and the locale file,
    /// then answer call `id` with `settings::settings` of them.
    ShowSettings { id: u64 },
    /// Run `hostname_args(hostname)`, then answer call `id` with
    /// `write_outcome`.
    SetHostname { id: u64, hostname: String },
    /// Look for the zone file `settings::zoneinfo_path(zone)` and go on with
    /// `settings::timezone_step`; where it exists, run `timezone_args(zone)`
    /// and answer call `id` with `write_outcome`.
    SetTimezone { id: u64, zone: String },
}

/// The call id that a dispatch decision answers.
pub open spec fn dispatch_id(d: Dispatch) -> u64 {
    match d {
        Dispatch::Respond(r) => r.id,
        Dispatch::ReportStatus { id } => id,
        Dispatch::Power { id, action: _ } => id,
        Dispatch::Session { id, op: _ } => id,
        Dispatch::ListServices { id } => id,
        Dispatch::InspectUnit { id, op: _, unit: _ } => id,
        Dispatch::Logs { id, unit: _, lines: _ } => id,
        Dispatch::ShowSettings { id } => id,
        Dispatch::SetHostname { id, hostname: _ } => id,
        Dispatch::SetTimezone { id, zone: _ } => id,
    }
}

/// The message of the refusal of a write method in development mode.
pub open spec fn dev_mode_message(method: Method) -> Seq<char> {
    if method == Method::Poweroff || method == Method::Reboot {
        "power operations are disabled in dev mode"@
    } else {
        "write operations are disabled in dev mode"@
    }
}

/// Whether `u` is a unit name `oneosd` passes to systemd: not empty, not
/// beginning with `-`, without whitespace and without `/`.
pub open spec fn valid_unit_name(u: Seq<char>) -> bool {
    &&& u.len() > 0
    &&& u[0] != '-'
    &&& forall|i: int| 0 <= i < u.len() ==> !is_ws(#[trigger] u[i]) && u[i] != '/'
}

/// The message of the refusal of a unit name.
pub open spec fn invalid_unit_message(u: Seq<char>) -> Seq<char> {
    u + ": invalid unit name"@
}

/// The operation a unit method asks for.
pub open spec fn service_op_of(method: Method) -> ServiceOp {
    match method {
        Method::ServiceStart => ServiceOp::Start,
        Method::ServiceStop => ServiceOp::Stop,
        Method::ServiceRestart => ServiceOp::Restart,
        _ => ServiceOp::Status,
    }
}

/// How a unit method with parameters `params` is answered: without a
/// `unit` it is refused with `bad_params`/`missing unit`, with a bad unit
/// name with `bad_params` and the name, else the unit is inspected.
pub open spec fn unit_dispatched(id: u64, op: ServiceOp, params: JsonValue, res: Dispatch) -> bool {
    match unit_param(params) {
        None => res matches Dispatch::Respond(r) && is_error_response(
            r,
            id,
            "bad_params"@,
            "missing unit"@,
        ),
        Some(u) => if valid_unit_name(u) {
            res matches Dispatch::InspectUnit { id: i, op: o, unit } && i == id && o == op
                && unit@ == u
        } else {
            res matches Dispatch::Respond(r) && is_error_response(
                r,
                id,
                "bad_params"@,
                invalid_unit_message(u),
            )
        },
    }
}

/// How `logs` with parameters `params` is answered: parameters that are
/// not as `logs_params` reads them are refused with `bad_params`, a bad
/// unit name too, else the journal is read (`DEFAULT_LOG_LINES` lines where
/// no count is given).
pub open spec fn logs_dispatched(id: u64, params: JsonValue, res: Dispatch) -> bool {
    match logs_params(params) {
        None => res matches Dispatch::Respond(r) && is_error_response(
            r,
            id,
            "bad_params"@,
            "invalid logs parameters"@,
        ),
        Some((u, n)) => if u matches Some(name) && !valid_unit_name(name) {
            res matches Dispatch::Respond(r) && is_error_response(
                r,
                id,
                "bad_params"@,
                invalid_unit_message(u->0),
            )
        } else {
            res matches Dispatch::Logs { id: i, unit, lines } && i == id && (match (unit, u) {
                (Some(a), Some(b)) => a@ == b,
                (None, None) => true,
                _ => false,
            }) && lines == match n {
                Some(k) => k,
                None => DEFAULT_LOG_LINES as nat,
            }
        },
    }
}

/// The message of the refusal of a host name.
pub open spec fn invalid_hostname_message(h: Seq<char>) -> Seq<char> {
    h + ": invalid hostname"@
}

/// The message of the refusal of a time zone name.
pub open spec fn invalid_zone_message(z: Seq<char>) -> Seq<char> {
    z + ": invalid time zone"@
}

/// How `settings_set_hostname` with parameters `params` is answered:
/// without a string `hostname` it is refused with `bad_params`/`missing
/// hostname`, with a name that is not `valid_hostname` with `bad_params`
/// and the name, else the host name is set.
pub open spec fn hostname_dispatched(id: u64, params: JsonValue, res: Dispatch) -> bool {
    match text_member(params, "hostname"@) {
        None => res matches Dispatch::Respond(r) && is_error_response(
            r,
            id,
            "bad_params"@,
            "missing hostname"@,
        ),
        Some(h) => if valid_hostname(h) {
            res matches Dispatch::SetHostname { id: i, hostname } && i == id && hostname@ == h
        } else {
            res matches Dispatch::Respond(r) && is_error_response(
                r,
                id,
                "bad_params"@,
                invalid_hostname_message(h),
            )
        },
    }
}

/// How `settings_set_timezone` with parameters `params` is answered:
/// without a string `timezone` it is refused with `bad_params`/`missing
/// timezone`, with a name that is not `valid_zone_name` with `bad_params`
/// and the name, else the zone is looked up and set.
pub open spec fn timezone_dispatched(id: u64, params: JsonValue, res: Dispatch) -> bool {
    match text_member(params, "timezone"@) {
        None => res matches Dispatch::Respond(r) && is_error_response(
            r,
            id,
            "bad_params"@,
            "missing timezone"@,
        ),
        Some(z) => if valid_zone_name(z) {
            res matches Dispatch::SetTimezone { id: i, zone } && i == id && zone@ == z
        } else {
            res matches Dispatch::Respond(r) && is_error_response(
                r,
                id,
                "bad_params"@,
                invalid_zone_message(z),
            )
        },
    }
}

/// How `oneosd` answers `request` (`res`). In development mode every write
/// method is refused with `dev_mode`. Otherwise `ping` is answered
/// `{"pong": true}`, `status` with a status report, `poweroff` and `reboot`
/// by asking systemd, the session methods act on `oneos-session.service`,
/// `service_list` lists the units, the unit methods inspect and act on the
/// unit their parameters name, `logs` reads the journal, `settings_show`
/// reports the settings, and the settings methods check and set the host
/// name and the time zone.
pub open spec fn dispatched(request: Request, dev_mode: bool, res: Dispatch) -> bool {
    &&& dispatch_id(res) == request.id
    &&& if dev_mode && request.method.spec_is_write() {
        res matches Dispatch::Respond(r) && is_error_response(
            r,
            request.id,
            "dev_mode"@,
            dev_mode_message(request.method),
        )
    } else {
        match request.method {
            Method::Ping => res matches Dispatch::Respond(r) && r.id == request.id && r.ok
                && r.well_shaped() && result_is_flag(r, "pong"@, true),
            Method::Status => res == Dispatch::ReportStatus { id: request.id },
            Method::Poweroff => res == Dispatch::Power {
                id: request.id,
                action: PowerAction::Poweroff,
            },
            Method::Reboot => res == Dispatch::Power { id: request.id, action: PowerAction::Reboot },
            Method::SessionStatus => res == Dispatch::Session {
                id: request.id,
                op: SessionOp::Status,
            },
            Method::SessionStart => res == Dispatch::Session {
                id: request.id,
                op: SessionOp::Start,
            },
            Method::SessionStop => res == Dispatch::Session {
                id: request.id,
                op: SessionOp::Stop,
            },
            Method::ServiceList => res == Dispatch::ListServices { id: request.id },
            Method::ServiceStatus | Method::ServiceStart | Method::ServiceStop
            | Method::ServiceRestart => unit_dispatched(
                request.id,
                service_op_of(request.method),
                request.params,
                res,
            ),
            Method::Logs => logs_dispatched(request.id, request.params, res),
            Method::SettingsShow => res == Dispatch::ShowSettings { id: request.id },
            Method::SettingsSetHostname => hostname_dispatched(request.id, request.params, res),
            Method::SettingsSetTimezone => timezone_dispatched(request.id, request.params, res),
        }
    }
}

/// Tests a unit name as `valid_unit_name` says.
pub fn valid_unit(unit: &str) -> (res: bool)
    ensures
        res == valid_unit_name(unit@),
{
    let cs = chars_of(unit);
    if cs.len() == 0 || cs[0] == '-' {
        return false;
    }
    let mut i: usize = 0;
    while i < cs.len()
        invariant
            i <= cs@.len(),
            cs@ == unit@,
            forall|j: int| 0 <= j < i ==> !is_ws(#[trigger] cs@[j]) && cs@[j] != '/',
        decreases cs.len() - i,
    {
        if is_whitespace(cs[i]) || cs[i] == '/' {
            return false;
        }
        i = i + 1;
    }
    true
}

/// `<unit>: invalid unit name`
fn invalid_unit_text(unit: &str) -> (res: String)
    ensures
        res@ == invalid_unit_message(unit@),
{
    let mut out: Vec<char> = Vec::new();
    push_str(&mut out, unit);
    push_str(&mut out, ": invalid unit name");
    string_of(&out)
}

/// Decides how `oneosd` answers a unit method.
fn dispatch_unit(id: u64, op: ServiceOp, params: &JsonValue) -> (res: Dispatch)
    ensures
        unit_dispatched(id, op, *params, res),
{
    match UnitParam::from_json(params) {
        None => Dispatch::Respond(Response::error(id, "bad_params", "missing unit")),
        Some(p) => {
            if valid_unit(p.unit.as_str()) {
                Dispatch::InspectUnit { id, op, unit: p.unit }
            } else {
                let message = invalid_unit_text(p.unit.as_str());
                Dispatch::Respond(Response::error(id, "bad_params", message.as_str()))
            }
        },
    }
}

/// Decides how `oneosd` answers `logs`.
fn dispatch_logs(id: u64, params: &JsonValue) -> (res: Dispatch)
    ensures
        logs_dispatched(id, *params, res),
{
    match LogsParam::from_json(params) {
        None => Dispatch::Respond(Response::error(id, "bad_params", "invalid logs parameters")),
        Some(p) => {
            let lines = match p.lines {
                Some(n) => n,
                None => DEFAULT_LOG_LINES,
            };
            match p.unit {
                Some(u) => {
                    if valid_unit(u.as_str()) {
                        Dispatch::Logs { id, unit: Some(u), lines }
                    } else {
                        let message = invalid_unit_text(u.as_str());
                        Dispatch::Respond(Response::error(id, "bad_params", message.as_str()))
                    }
                },
                None => Dispatch::Logs { id, unit: None, lines },
            }
        },
    }
}

/// Decides how `oneosd` answers `settings_set_hostname`.
fn dispatch_hostname(id: u64, params: &JsonValue) -> (res: Dispatch)
    ensures
        hostname_dispatched(id, *params, res),
{
    match text_param(params, "hostname") {
        None => Dispatch::Respond(Response::error(id, "bad_params", "missing hostname")),
        Some(h) => {
            if check_hostname(h.as_str()) {
                Dispatch::SetHostname { id, hostname: h }
            } else {
                let message = joined(h.as_str(), ": invalid hostname");
                Dispatch::Respond(Response::error(id, "bad_params", message.as_str()))
            }
        },
    }
}

/// Decides how `oneosd` answers `settings_set_timezone`.
fn dispatch_timezone(id: u64, params: &JsonValue) -> (res: Dispatch)
    ensures
        timezone_dispatched(id, *params, res),
{
    match text_param(params, "timezone") {
        None => Dispatch::Respond(Response::error(id, "bad_params", "missing timezone")),
        Some(z) => {
            if check_zone_name(z.as_str()) {
                Dispatch::SetTimezone { id, zone: z }
            } else {
                let message = joined(z.as_str(), ": invalid time zone");
                Dispatch::Respond(Response::error(id, "bad_params", message.as_str()))
            }
        },
    }
}

/// Decides how `oneosd` answers `request`.
pub fn dispatch(request: &Request, dev_mode: bool) -> (res: Dispatch)
    ensures
        dispatched(*request, dev_mode, res),
{
    let id = request.id;
    if dev_mode && request.method.is_write() {
        let message = if request.method == Method::Poweroff || request.method == Method::Reboot {
            "power operations are disabled in dev mode"
        } else {
            "write operations are disabled in dev mode"
        };
        return Dispatch::Respond(Response::error(id, "dev_mode", message));
    }
    match request.method {
        Method::Ping => Dispatch::Respond(
            Response::ok(id, Some(JsonValue::flag_object("pong", true))),
        ),
        Method::Status => Dispatch::ReportStatus { id },
        Method::Poweroff => Dispatch::Power { id, action: PowerAction::Poweroff },
        Method::Reboot => Dispatch::Power { id, action: PowerAction::Reboot },
        Method::SessionStatus => Dispatch::Session { id, op: SessionOp::Status },
        Method::SessionStart => Dispatch::Session { id, op: SessionOp::Start },
        Method::SessionStop => Dispatch::Session { id, op: SessionOp::Stop },
        Method::ServiceList => Dispatch::ListServices { id },
        Method::ServiceStatus => dispatch_unit(id, ServiceOp::Status, &request.params),
        Method::ServiceStart => dispatch_unit(id, ServiceOp::Start, &request.params),
        Method::ServiceStop => dispatch_unit(id, ServiceOp::Stop, &request.params),
        Method::ServiceRestart => dispatch_unit(id, ServiceOp::Restart, &request.params),
        Method::Logs => dispatch_logs(id, &request.params),
        Method::SettingsShow => Dispatch::ShowSettings { id },
        Method::SettingsSetHostname => dispatch_hostname(id, &request.params),
        Method::SettingsSetTimezone => dispatch_timezone(id, &request.params),
    }
}

/// The answer to call `id` once systemd was asked for `action`: accepted
/// (`{"accepted": "<verb>"}`) when the command could be started, else
/// `spawn_failed` with the reason.
pub fn power_outcome(id: u64, action: PowerAction, spawned: Result<(), String>) -> (res: Response)
    ensures
        res.well_shaped(),
        match spawned {
            Ok(_) => res.id == id && res.ok && result_is_text(res, "accepted"@, action.spec_verb()),
            Err(reason) => is_error_response(res, id, "spawn_failed"@, reason@),
        },
{
    match spawned {
        Ok(_) => Response::ok(id, Some(JsonValue::text_object("accepted", action.verb()))),
        Err(reason) => Response::error(id, "spawn_failed", reason.as_str()),
    }
}

/// What a finished command left: whether it succeeded, and its output.
#[derive(Debug)]
pub struct CommandRun {
    pub success: bool,
    pub stdout: String,
    pub stderr: String,
}

/// The output of a command run for call `id`, or the failed answer: a
/// command that could not be started is answered `spawn_failed` with the
/// reason, one that failed `command_failed` with its trimmed error output.
pub fn command_output(id: u64, ran: Result<CommandRun, String>) -> (res: Result<String, Response>)
    ensures
        match ran {
            Err(reason) => res matches Err(r) && is_error_response(
                r,
                id,
                "spawn_failed"@,
                reason@,
            ),
            Ok(run) => if run.success {
                res matches Ok(out) && out@ == run.stdout@
            } else {
                res matches Err(r) && is_error_response(
                    r,
                    id,
                    "command_failed"@,
                    trim(run.stderr@),
                )
            },
        },
{
    match ran {
        Err(reason) => Err(Response::error(id, "spawn_failed", reason.as_str())),
        Ok(run) => {
            if run.success {
                Ok(run.stdout)
            } else {
                let message = trimmed(run.stderr.as_str());
                Err(Response::error(id, "command_failed", message.as_str()))
            }
        },
    }
}

/// The answer to call `id` once a write operation was carried out:
/// `{"accepted": "<verb>"}`.
pub fn accepted(id: u64, verb: &str) -> (res: Response)
    ensures
        res.id == id,
        res.ok,
        res.well_shaped(),
        result_is_text(res, "accepted"@, verb@),
{
    Response::ok(id, Some(JsonValue::text_object("accepted", verb)))
}

/// The answer to call `id` with journal lines: `{"journal": "<lines>"}`.
pub fn journal_reply(id: u64, journal: &str) -> (res: Response)
    ensures
        res.id == id,
        res.ok,
        res.well_shaped(),
        result_is_text(res, "journal"@, journal@),
{
    Response::ok(id, Some(JsonValue::text_object("journal", journal)))
}

/// The answer to call `id` once the command of a write operation `verb`
/// ran: a command that could not be started is answered `spawn_failed`,
/// one that failed `command_failed` with its trimmed error output, else the
/// operation is accepted (`{"accepted": "<verb>"}`).
pub fn write_outcome(id: u64, verb: &str, ran: Result<CommandRun, String>) -> (res: Response)
    ensures
        res.well_shaped(),
        match ran {
            Err(reason) => is_error_response(res, id, "spawn_failed"@, reason@),
            Ok(run) => if run.success {
                res.id == id && res.ok && result_is_text(res, "accepted"@, verb@)
            } else {
                is_error_response(res, id, "command_failed"@, trim(run.stderr@))
            },
        },
{
    match command_output(id, ran) {
        Ok(_) => accepted(id, verb),
        Err(response) => response,
    }
}

/// The answer to call `id` once `journalctl` ran: its output as
/// `{"journal": "<output>"}`, or the failure as `command_output` gives it.
pub fn logs_outcome(id: u64, ran: Result<CommandRun, String>) -> (res: Response)
    ensures
        res.well_shaped(),
        match ran {
            Err(reason) => is_error_response(res, id, "spawn_failed"@, reason@),
            Ok(run) => if run.success {
                res.id == id && res.ok && result_is_text(res, "journal"@, run.stdout@)
            } else {
                is_error_response(res, id, "command_failed"@, trim(run.stderr@))
            },
        },
{
    match command_output(id, ran) {
        Ok(out) => journal_reply(id, out.as_str()),
        Err(response) => response,
    }
}

/// The arguments of `systemctl` that list the units as JSON.
pub fn list_units_args() -> (res: Vec<String>)
    ensures
        strings_view(res@) == seq!["list-units"@, "--output=json"@],
{
    let mut res: Vec<String> = Vec::new();
    res.push(String::from_str("list-units"));
    res.push(String::from_str("--output=json"));
    assert(strings_view(res@) =~= seq!["list-units"@, "--output=json"@]);
    res
}

/// The units for call `id` once the output of `systemctl list-units` was
/// decoded: the units, or `bad_output` with the decoder's reason.
pub fn decoded_services(id: u64, decoded: Result<Vec<ServiceInfo>, String>) -> (res: Result<
    Vec<ServiceInfo>,
    Response,
>)
    ensures
        match decoded {
            Ok(units) => res matches Ok(u) && u@ == units@,
            Err(reason) => res matches Err(r) && is_error_response(
                r,
                id,
                "bad_output"@,
                reason@,
            ),
        },
{
    match decoded {
        Ok(units) => Ok(units),
        Err(reason) => Err(Response::error(id, "bad_output", reason.as_str())),
    }
}

/// The arguments of `hostnamectl` that set the host name to `hostname`.
pub fn hostname_args(hostname: &str) -> (res: Vec<String>)
    ensures
        strings_view(res@) == seq!["set-hostname"@, hostname@],
{
    unit_args("set-hostname", hostname)
}

/// The arguments of `timedatectl` that set the time zone to `zone`.
pub fn timezone_args(zone: &str) -> (res: Vec<String>)
    ensures
        strings_view(res@) == seq!["set-timezone"@, zone@],
{
    unit_args("set-timezone", zone)
}

/// The session's state as `systemctl is-active` prints it: the trimmed
/// output, active exactly when it reads `active`.
pub fn session_state(output: &str) -> (res: SessionState)
    ensures
        res.state@ == trim(output@),
        res.active == (trim(output@) == "active"@),
{
    let state = trimmed(output);
    let cs = chars_of(state.as_str());
    let active = chars_eq(&cs, "active");
    SessionState { active, state }
}

/// The session's state for call `id` once `systemctl is-active` ran (its
/// exit status tells the state too, so only a failure to start it is an
/// error, `spawn_failed`).
pub fn session_outcome(id: u64, ran: Result<CommandRun, String>) -> (res: Result<
    SessionState,
    Response,
>)
    ensures
        match ran {
            Err(reason) => res matches Err(r) && is_error_response(
                r,
                id,
                "spawn_failed"@,
                reason@,
            ),
            Ok(run) => res matches Ok(st) && st.state@ == trim(run.stdout@) && st.active == (trim(
                run.stdout@,
            ) == "active"@),
        },
{
    match ran {
        Err(reason) => Err(Response::error(id, "spawn_failed", reason.as_str())),
        Ok(run) => Ok(session_state(run.stdout.as_str())),
    }
}

/// The views of a list of strings.
pub open spec fn strings_view(v: Seq<String>) -> Seq<Seq<char>> {
    v.map_values(|s: String| s@)
}

/// The arguments of `systemctl` for a session operation.
pub fn session_args(op: SessionOp) -> (res: Vec<String>)
    ensures
        strings_view(res@) == seq![op.spec_verb(), SESSION_UNIT@],
{
    let mut res: Vec<String> = Vec::new();
    res.push(String::from_str(op.verb()));
    res.push(String::from_str(SESSION_UNIT));
    assert(strings_view(res@) =~= seq![op.spec_verb(), SESSION_UNIT@]);
    res
}

/// The properties `oneosd` reads of a unit.
pub open spec fn unit_properties() -> Seq<char> {
    "LoadState,ActiveState,SubState,Description"@
}

/// The arguments of `systemctl` that show the properties of `unit`.
pub fn show_args(unit: &str) -> (res: Vec<String>)
    ensures
        strings_view(res@) == seq!["show"@, "-p"@, unit_properties(), unit@],
{
    let mut res: Vec<String> = Vec::new();
    res.push(String::from_str("show"));
    res.push(String::from_str("-p"));
    res.push(String::from_str("LoadState,ActiveState,SubState,Description"));
    res.push(String::from_str(unit));
    assert(strings_view(res@) =~= seq!["show"@, "-p"@, unit_properties(), unit@]);
    res
}

/// The arguments of `systemctl` that carry out `verb` on `unit`.
pub fn unit_args(verb: &str, unit: &str) -> (res: Vec<String>)
    ensures
        strings_view(res@) == seq![verb@, unit@],
{
    let mut res: Vec<String> = Vec::new();
    res.push(String::from_str(verb));
    res.push(String::from_str(unit));
    assert(strings_view(res@) =~= seq![verb@, unit@]);
    res
}

/// The arguments of `journalctl` that print the last `lines` lines, of
/// `unit` where one is given.
pub fn logs_args(unit: &Option<String>, lines: u32) -> (res: Vec<String>)
    ensures
        strings_view(res@) == seq!["--no-pager"@, "-n"@, decimal_text(lines as nat)] + match unit {
            Some(u) => seq!["-u"@, u@],
            None => Seq::<Seq<char>>::empty(),
        },
{
    let mut res: Vec<String> = Vec::new();
    res.push(String::from_str("--no-pager"));
    res.push(String::from_str("-n"));
    res.push(decimal(lines as u64));
    match unit {
        Some(u) => {
            res.push(String::from_str("-u"));
            res.push(u.clone());
        },
        None => {},
    }
    assert(strings_view(res@) =~= seq!["--no-pager"@, "-n"@, decimal_text(lines as nat)] + match unit {
        Some(u) => seq!["-u"@, u@],
        None => Seq::<Seq<char>>::empty(),
    });
    res
}

/// The value of property `key` in the output of `systemctl show`, or empty
/// where the output has none.
pub open spec fn property(ls: Seq<Seq<char>>, key: Seq<char>) -> Seq<char> {
    match first_value(ls, key + seq!['=']) {
        Some(v) => v,
        None => Seq::<char>::empty(),
    }
}

/// The value of property `key` among the lines `ls`.
fn property_of(ls: &Vec<Vec<char>>, key: &str) -> (res: String)
    ensures
        res@ == property(views(ls@), key@),
{
    let mut k = chars_of(key);
    k.push('=');
    assert(k@ =~= key@ + seq!['=']);
    match find_value(ls, &k) {
        Some(v) => string_of(&v),
        None => String::new(),
    }
}

/// What `systemctl show` printed about `unit`, as a `ServiceInfo`: its load
/// state, active state, sub-state and description.
pub fn service_info(unit: &str, show_output: &str) -> (res: ServiceInfo)
    ensures
        res.unit@ == unit@,
        res.load@ == property(lines(show_output@), "LoadState"@),
        res.active@ == property(lines(show_output@), "ActiveState"@),
        res.sub@ == property(lines(show_output@), "SubState"@),
        res.description@ == property(lines(show_output@), "Description"@),
{
    let cs = chars_of(show_output);
    let ls = split_lines(&cs);
    ServiceInfo {
        unit: String::from_str(unit),
        load: property_of(&ls, "LoadState"),
        active: property_of(&ls, "ActiveState"),
        sub: property_of(&ls, "SubState"),
        description: property_of(&ls, "Description"),
    }
}

/// The next step of a unit method once the unit's properties were asked
/// for.
#[derive(Debug)]
pub enum UnitStep {
    /// Answer at once with this response.
    Respond(Response),
    /// Answer with this description of the unit.
    Report(ServiceInfo),
    /// Run `systemctl <verb> <unit>`, then answer with `command_output` and
    /// `accepted`.
    Run { verb: &'static str },
}

/// The message of the answer for a unit systemd does not know.
pub open spec fn unit_not_found_message(u: Seq<char>) -> Seq<char> {
    u + ": unit not found"@
}

/// Decides the next step of unit method `op` on `unit` for call `id` from
/// the output of `systemctl show`: a failure to run it is answered
/// `spawn_failed`, a unit whose load state is `not-found` is answered
/// `unit_not_found`, `service_status` reports the unit, and the other
/// operations run their verb.
pub fn unit_step(id: u64, op: ServiceOp, unit: &str, shown: Result<String, String>) -> (res:
    UnitStep)
    ensures
        match shown {
            Err(reason) => res matches UnitStep::Respond(r) && is_error_response(
                r,
                id,
                "spawn_failed"@,
                reason@,
            ),
            Ok(out) => if property(lines(out@), "LoadState"@) == "not-found"@ {
                res matches UnitStep::Respond(r) && is_error_response(
                    r,
                    id,
                    "unit_not_found"@,
                    unit_not_found_message(unit@),
                )
            } else if op == ServiceOp::Status {
                res matches UnitStep::Report(info) && info.unit@ == unit@ && info.load@ == property(
                    lines(out@),
                    "LoadState"@,
                ) && info.active@ == property(lines(out@), "ActiveState"@) && info.sub@
                    == property(lines(out@), "SubState"@) && info.description@ == property(
                    lines(out@),
                    "Description"@,
                )
            } else {
                res matches UnitStep::Run { verb } && verb@ == op.spec_verb()
            },
        },
{
    let out = match shown {
        Err(reason) => {
            return UnitStep::Respond(Response::error(id, "spawn_failed", reason.as_str()));
        },
        Ok(out) => out,
    };
    let info = service_info(unit, out.as_str());
    let load = chars_of(info.load.as_str());
    if chars_eq(&load, "not-found") {
        let mut message: Vec<char> = Vec::new();
        push_str(&mut message, unit);
        push_str(&mut message, ": unit not found");
        let message = string_of(&message);
        return UnitStep::Respond(Response::error(id, "unit_not_found", message.as_str()));
    }
    match op {
        ServiceOp::Status => UnitStep::Report(info),
        _ => UnitStep::Run { verb: op.verb() },
    }
}

/// How `oneosd` handles one line read from a client: a blank line is
/// skipped, a line that is not a request is answered `bad_request` (call id
/// 0) with the parser's reason, a request is dispatched.
pub fn handle_line(line: &str, parsed: Result<Request, String>, dev_mode: bool) -> (res: Option<
    Dispatch,
>)
    ensures
        trim(line@).len() == 0 ==> res is None,
        trim(line@).len() != 0 ==> match parsed {
            Err(reason) => res matches Some(Dispatch::Respond(r)) && is_error_response(
                r,
                0,
                "bad_request"@,
                reason@,
            ),
            Ok(request) => res matches Some(d) && dispatched(request, dev_mode, d),
        },
{
    let cs = chars_of(line);
    let (a, b) = strip_bounds(&cs, None);
    if a == b {
        return None;
    }
    match parsed {
        Err(reason) => Some(Dispatch::Respond(Response::error(0, "bad_request", reason.as_str()))),
        Ok(request) => Some(dispatch(&request, dev_mode)),
    }
}



/// Every answer that `oneosd` gives at once is well shaped and answers the
/// request's id: a success carries no error, a failure carries an error and
/// no result.
pub proof fn lemma_immediate_answers_well_shaped(request: Request, dev_mode: bool, d: Dispatch)
    requires
        dispatched(request, dev_mode, d),
    ensures
        d matches Dispatch::Respond(r) ==> r.well_shaped() && r.id == request.id,
{
}

/// Development mode refuses every write method: its request is answered at
/// once with the error `dev_mode`, and nothing is asked of systemd.
pub proof fn lemma_dev_mode_refuses_writes(request: Request, d: Dispatch)
    requires
        dispatched(request, true, d),
        request.method.spec_is_write(),
    ensures
        d matches Dispatch::Respond(r) && is_error_response(
            r,
            request.id,
            "dev_mode"@,
            dev_mode_message(request.method),
        ),
{
}

/// Development mode changes nothing for the methods that only read: they
/// are answered as outside development mode, on the host.
pub proof fn lemma_dev_mode_keeps_reads(request: Request, d: Dispatch)
    requires
        !request.method.spec_is_write(),
    ensures
        dispatched(request, true, d) == dispatched(request, false, d),
{
}



/// Whether `d` changes the system: a power action, starting or stopping
/// the session, an operation on a unit other than reading its status, or a
/// new host name or time zone.
pub open spec fn changes_system(d: Dispatch) -> bool {
    match d {
        Dispatch::Power { .. } => true,
        Dispatch::Session { id: _, op } => op != SessionOp::Status,
        Dispatch::InspectUnit { id: _, op, unit: _ } => op != ServiceOp::Status,
        Dispatch::SetHostname { .. } => true,
        Dispatch::SetTimezone { .. } => true,
        _ => false,
    }
}

/// Development mode never changes the system: whatever a request asks, it
/// is answered with a report or a refusal, and `poweroff` and `reboot` alike
/// are refused at once with `dev_mode` and the message about power
/// operations.
pub proof fn lemma_dev_mode_changes_nothing(request: Request, d: Dispatch)
    requires
        dispatched(request, true, d),
    ensures
        !changes_system(d),
        request.method == Method::Poweroff || request.method == Method::Reboot ==> (d matches Dispatch::Respond(
            r,
        ) && is_error_response(
            r,
            request.id,
            "dev_mode"@,
            "power operations are disabled in dev mode"@,
        )),
{
}

/// Outside development mode a request is carried out as its method names
/// it: a power action has the method's wire name as its `systemctl` verb
/// (`poweroff`, `reboot`), and a unit operation is `service_<verb>`.
pub proof fn lemma_method_names_name_actions(request: Request, d: Dispatch)
    requires
        dispatched(request, false, d),
    ensures
        d matches Dispatch::Power { id: _, action } ==> request.method.wire_name()
            == action.spec_verb(),
        d matches Dispatch::InspectUnit { id: _, op, unit: _ } ==> request.method.wire_name()
            == "service_"@ + op.spec_verb(),
{
    reveal_strlit("service_");
    reveal_strlit("status");
    reveal_strlit("start");
    reveal_strlit("stop");
    reveal_strlit("restart");
    reveal_strlit("service_status");
    reveal_strlit("service_start");
    reveal_strlit("service_stop");
    reveal_strlit("service_restart");
    assert("service_status"@ =~= "service_"@ + "status"@);
    assert("service_start"@ =~= "service_"@ + "start"@);
    assert("service_stop"@ =~= "service_"@ + "stop"@);
    assert("service_restart"@ =~= "service_"@ + "restart"@);
}

/// The key of the line of `/etc/os-release` that names the system.
pub open spec fn pretty_key() -> Seq<char> {
    "PRETTY_NAME="@
}

/// The value of the first line among `ls` that begins with `PRETTY_NAME=`,
/// without surrounding double quotes.
pub open spec fn pretty_value(ls: Seq<Seq<char>>) -> Option<Seq<char>> {
    match first_value(ls, pretty_key()) {
        Some(v) => Some(strip_both(v, strip_pred(Some('"')))),
        None => None,
    }
}

/// The system's name as the contents of `/etc/os-release` give it, or
/// `Linux` where they name none.
pub open spec fn os_name(contents: Seq<char>) -> Seq<char> {
    match pretty_value(lines(contents)) {
        Some(v) => v,
        None => "Linux"@,
    }
}

/// The system's name: `PRETTY_NAME` of `/etc/os-release` (whose contents
/// are `os_release`, `None` where it could not be read), or `Linux`.
pub fn pretty_name(os_release: Option<&str>) -> (res: String)
    ensures
        res@ == match os_release {
            Some(c) => os_name(c@),
            None => "Linux"@,
        },
{
    let contents = match os_release {
        Some(c) => c,
        None => {
            return String::from_str("Linux");
        },
    };
    let cs = chars_of(contents);
    let ls = split_lines(&cs);
    let key = chars_of("PRETTY_NAME=");
    match find_value(&ls, &key) {
        Some(rest) => {
            let (a, b) = strip_bounds(&rest, Some('"'));
            let v = sub_chars(&rest, a, b);
            string_of(&v)
        },
        None => String::from_str("Linux"),
    }
}

/// The status report: the daemon's `version`, the system's name from the
/// contents of `/etc/os-release`, the host name (trimmed, `oneos` where it
/// could not be read), the uptime in whole seconds, and the boot id
/// (trimmed, empty where it could not be read).
pub fn status(
    version: &str,
    os_release: Option<&str>,
    hostname: Option<&str>,
    uptime_secs: u64,
    boot_id: Option<&str>,
) -> (res: Status)
    ensures
        res.version@ == version@,
        res.os@ == match os_release {
            Some(c) => os_name(c@),
            None => "Linux"@,
        },
        res.hostname@ == match hostname {
            Some(h) => trim(h@),
            None => "oneos"@,
        },
        res.uptime_secs == uptime_secs,
        res.boot_id@ == match boot_id {
            Some(b) => trim(b@),
            None => Seq::<char>::empty(),
        },
{
    let hostname = match hostname {
        Some(h) => trimmed(h),
        None => String::from_str("oneos"),
    };
    let boot_id = match boot_id {
        Some(b) => trimmed(b),
        None => String::new(),
    };
    Status {
        version: String::from_str(version),
        os: pretty_name(os_release),
        hostname,
        uptime_secs,
        boot_id,
    }
}

/// Whether systemd handed this process its listening socket: `LISTEN_PID`
/// names this process and `LISTEN_FDS` is a number other than 0 (both read
/// as std's `u32` parser reads them; `None` where the variable is unset).
pub open spec fn spec_socket_activated(
    listen_pid: Option<Seq<char>>,
    listen_fds: Option<Seq<char>>,
    own_pid: u32,
) -> bool {
    &&& listen_pid matches Some(p) && parse_unsigned(p, u32::MAX as nat) == Some(own_pid as nat)
    &&& listen_fds matches Some(f) && parse_unsigned(f, u32::MAX as nat) matches Some(n) && n
        != 0
}

/// Decides whether to take the listening socket from systemd.
pub fn socket_activated(listen_pid: Option<&str>, listen_fds: Option<&str>, own_pid: u32) -> (res:
    bool)
    ensures
        res == spec_socket_activated(
            match listen_pid {
                Some(p) => Some(p@),
                None => None,
            },
            match listen_fds {
                Some(f) => Some(f@),
                None => None,
            },
            own_pid,
        ),
{
    let pid = match listen_pid {
        Some(p) => p,
        None => {
            return false;
        },
    };
    match parse_u32(pid) {
        Some(n) => {
            if n != own_pid {
                return false;
            }
        },
        None => {
            return false;
        },
    }
    let fds = match listen_fds {
        Some(f) => f,
        None => {
            return false;
        },
    };
    match parse_u32(fds) {
        Some(n) => n != 0,
        None => false,
    }
}

/// What to do before binding the socket path.
#[derive(Debug, Clone, Copy, PartialEq, Eq, Structural)]
pub struct BindPlan {
    /// Create the socket's directory (mode 0755).
    pub create_parent: bool,
    /// Give up: a daemon already answers on the path.
    pub refuse_in_use: bool,
    /// Remove the stale socket file left by a daemon that is gone.
    pub remove_stale: bool,
}

/// Plans the binding of the socket path from what was found: whether its
/// directory is missing, whether a daemon answers on it, and whether a file
/// is there.
pub fn plan_bind(parent_missing: bool, socket_answers: bool, path_exists: bool) -> (res: BindPlan)
    ensures
        res.create_parent == parent_missing,
        res.refuse_in_use == socket_answers,
        res.remove_stale == (!socket_answers && path_exists),
{
    BindPlan {
        create_parent: parent_missing,
        refuse_in_use: socket_answers,
        remove_stale: !socket_answers && path_exists,
    }
}

} // verus!
