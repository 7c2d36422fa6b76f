//! The protocol between `oneos` and `oneosd`: one JSON document per line
//! over a unix socket. A request names a method and carries parameters; a
//! response echoes the request's id and carries either a result or an error.
use vstd::prelude::*;

use crate::text::{chars_eq, chars_of, parse_u32, parse_unsigned, push_str, string_of};

verus! {

/// Where `oneosd` listens when nothing else is configured.
pub const DEFAULT_SOCKET: &'static str = "/run/oneos/oneosd.sock";

/// The environment variable that overrides the socket path.
pub const SOCKET_ENV: &'static str = "ONEO_SOCKET";

/// The methods a client can call.
#[derive(Debug, Clone, Copy, PartialEq, Eq, Structural)]
pub enum Method {
    Ping,
    Status,
    Poweroff,
    Reboot,
    SessionStatus,
    SessionStart,
    SessionStop,
    ServiceList,
    ServiceStatus,
    ServiceStart,
    ServiceStop,
    ServiceRestart,
    Logs,
    SettingsShow,
    SettingsSetHostname,
    SettingsSetTimezone,
}

impl Method {
    /// The name of the method on the wire: the variant's name in snake case.
    pub open spec fn wire_name(self) -> Seq<char> {
        match self {
            Method::Ping => "ping"@,
            Method::Status => "status"@,
            Method::Poweroff => "poweroff"@,
            Method::Reboot => "reboot"@,
            Method::SessionStatus => "session_status"@,
            Method::SessionStart => "session_start"@,
            Method::SessionStop => "session_stop"@,
            Method::ServiceList => "service_list"@,
            Method::ServiceStatus => "service_status"@,
            Method::ServiceStart => "service_start"@,
            Method::ServiceStop => "service_stop"@,
            Method::ServiceRestart => "service_restart"@,
            Method::Logs => "logs"@,
            Method::SettingsShow => "settings_show"@,
            Method::SettingsSetHostname => "settings_set_hostname"@,
            Method::SettingsSetTimezone => "settings_set_timezone"@,
        }
    }

    /// Whether the method changes the system (power, session, services,
    /// settings).
    pub open spec fn spec_is_write(self) -> bool {
        match self {
            Method::Poweroff | Method::Reboot | Method::SessionStart | Method::SessionStop
            | Method::ServiceStart | Method::ServiceStop | Method::ServiceRestart
            | Method::SettingsSetHostname | Method::SettingsSetTimezone => true,
            _ => false,
        }
    }

    /// The method's name on the wire.
    pub fn name(&self) -> (res: &'static str)
        ensures
            res@ == self.wire_name(),
    {
        match self {
            Method::Ping => "ping",
            Method::Status => "status",
            Method::Poweroff => "poweroff",
            Method::Reboot => "reboot",
            Method::SessionStatus => "session_status",
            Method::SessionStart => "session_start",
            Method::SessionStop => "session_stop",
            Method::ServiceList => "service_list",
            Method::ServiceStatus => "service_status",
            Method::ServiceStart => "service_start",
            Method::ServiceStop => "service_stop",
            Method::ServiceRestart => "service_restart",
            Method::Logs => "logs",
            Method::SettingsShow => "settings_show",
            Method::SettingsSetHostname => "settings_set_hostname",
            Method::SettingsSetTimezone => "settings_set_timezone",
        }
    }

    /// Whether the method changes the system; such methods are refused in
    /// development mode.
    pub fn is_write(&self) -> (res: bool)
        ensures
            res == self.spec_is_write(),
    {
        match self {
            Method::Poweroff | Method::Reboot | Method::SessionStart | Method::SessionStop
            | Method::ServiceStart | Method::ServiceStop | Method::ServiceRestart
            | Method::SettingsSetHostname | Method::SettingsSetTimezone => true,
            _ => false,
        }
    }

    /// The method whose wire name is `name`, if any.
    pub fn from_name(name: &str) -> (res: Option<Method>)
        ensures
            res == method_from_wire(name@),
    {
        let cs = chars_of(name);
        if chars_eq(&cs, "ping") {
            Some(Method::Ping)
        } else if chars_eq(&cs, "status") {
            Some(Method::Status)
        } else if chars_eq(&cs, "poweroff") {
            Some(Method::Poweroff)
        } else if chars_eq(&cs, "reboot") {
            Some(Method::Reboot)
        } else if chars_eq(&cs, "session_status") {
            Some(Method::SessionStatus)
        } else if chars_eq(&cs, "session_start") {
            Some(Method::SessionStart)
        } else if chars_eq(&cs, "session_stop") {
            Some(Method::SessionStop)
        } else if chars_eq(&cs, "service_list") {
            Some(Method::ServiceList)
        } else if chars_eq(&cs, "service_status") {
            Some(Method::ServiceStatus)
        } else if chars_eq(&cs, "service_start") {
            Some(Method::ServiceStart)
        } else if chars_eq(&cs, "service_stop") {
            Some(Method::ServiceStop)
        } else if chars_eq(&cs, "service_restart") {
            Some(Method::ServiceRestart)
        } else if chars_eq(&cs, "logs") {
            Some(Method::Logs)
        } else if chars_eq(&cs, "settings_show") {
            Some(Method::SettingsShow)
        } else if chars_eq(&cs, "settings_set_hostname") {
            Some(Method::SettingsSetHostname)
        } else if chars_eq(&cs, "settings_set_timezone") {
            Some(Method::SettingsSetTimezone)
        } else {
            None
        }
    }
}

/// The method named `name` on the wire, if any.
pub open spec fn method_from_wire(name: Seq<char>) -> Option<Method> {
    if name == "ping"@ {
        Some(Method::Ping)
    } else if name == "status"@ {
        Some(Method::Status)
    } else if name == "poweroff"@ {
        Some(Method::Poweroff)
    } else if name == "reboot"@ {
        Some(Method::Reboot)
    } else if name == "session_status"@ {
        Some(Method::SessionStatus)
    } else if name == "session_start"@ {
        Some(Method::SessionStart)
    } else if name == "session_stop"@ {
        Some(Method::SessionStop)
    } else if name == "service_list"@ {
        Some(Method::ServiceList)
    } else if name == "service_status"@ {
        Some(Method::ServiceStatus)
    } else if name == "service_start"@ {
        Some(Method::ServiceStart)
    } else if name == "service_stop"@ {
        Some(Method::ServiceStop)
    } else if name == "service_restart"@ {
        Some(Method::ServiceRestart)
    } else if name == "logs"@ {
        Some(Method::Logs)
    } else if name == "settings_show"@ {
        Some(Method::SettingsShow)
    } else if name == "settings_set_hostname"@ {
        Some(Method::SettingsSetHostname)
    } else if name == "settings_set_timezone"@ {
        Some(Method::SettingsSetTimezone)
    } else {
        None
    }
}

/// Every method is read back from its own wire name, and a wire name
/// denotes only the method that carries it: the names of distinct methods
/// differ.
pub proof fn lemma_method_name_roundtrip(m: Method, name: Seq<char>)
    ensures
        method_from_wire(m.wire_name()) == Some(m),
        method_from_wire(name) == Some(m) ==> m.wire_name() == name,
{
    reveal_strlit("ping");
    reveal_strlit("status");
    reveal_strlit("poweroff");
    reveal_strlit("reboot");
    reveal_strlit("session_status");
    reveal_strlit("session_start");
    reveal_strlit("session_stop");
    reveal_strlit("service_list");
    reveal_strlit("service_status");
    reveal_strlit("service_start");
    reveal_strlit("service_stop");
    reveal_strlit("service_restart");
    reveal_strlit("logs");
    reveal_strlit("settings_show");
    reveal_strlit("settings_set_hostname");
    reveal_strlit("settings_set_timezone");
    assert("settings_show"@.len() == 13);
    assert("settings_show"@[0] == 's');
    assert("settings_show"@[2] == 't');
    assert("settings_show"@[8] == '_');
    assert("settings_set_hostname"@.len() == 21);
    assert("settings_set_hostname"@[0] == 's');
    assert("settings_set_hostname"@[2] == 't');
    assert("settings_set_hostname"@[8] == '_');
    assert("settings_set_hostname"@[13] == 'h');
    assert("settings_set_timezone"@.len() == 21);
    assert("settings_set_timezone"@[0] == 's');
    assert("settings_set_timezone"@[2] == 't');
    assert("settings_set_timezone"@[8] == '_');
    assert("settings_set_timezone"@[13] == 't');
    assert("ping"@.len() == 4);
    assert("ping"@[0] == 'p');
    assert("ping"@[2] == 'n');
    assert("status"@.len() == 6);
    assert("status"@[0] == 's');
    assert("status"@[2] == 'a');
    assert("poweroff"@.len() == 8);
    assert("poweroff"@[0] == 'p');
    assert("poweroff"@[2] == 'w');
    assert("reboot"@.len() == 6);
    assert("reboot"@[0] == 'r');
    assert("reboot"@[2] == 'b');
    assert("session_status"@.len() == 14);
    assert("session_status"@[0] == 's');
    assert("session_status"@[2] == 's');
    assert("session_status"@[8] == 's');
    assert("session_start"@.len() == 13);
    assert("session_start"@[0] == 's');
    assert("session_start"@[2] == 's');
    assert("session_start"@[8] == 's');
    assert("session_stop"@.len() == 12);
    assert("session_stop"@[0] == 's');
    assert("session_stop"@[2] == 's');
    assert("session_stop"@[8] == 's');
    assert("service_list"@.len() == 12);
    assert("service_list"@[0] == 's');
    assert("service_list"@[2] == 'r');
    assert("service_list"@[8] == 'l');
    assert("service_status"@.len() == 14);
    assert("service_status"@[0] == 's');
    assert("service_status"@[2] == 'r');
    assert("service_status"@[8] == 's');
    assert("service_start"@.len() == 13);
    assert("service_start"@[0] == 's');
    assert("service_start"@[2] == 'r');
    assert("service_start"@[8] == 's');
    assert("service_stop"@.len() == 12);
    assert("service_stop"@[0] == 's');
    assert("service_stop"@[2] == 'r');
    assert("service_stop"@[8] == 's');
    assert("service_restart"@.len() == 15);
    assert("service_restart"@[0] == 's');
    assert("service_restart"@[2] == 'r');
    assert("service_restart"@[8] == 'r');
    assert("logs"@.len() == 4);
    assert("logs"@[0] == 'l');
    assert("logs"@[2] == 'g');
}

/// A JSON value. Numbers are held as their JSON text, so that every number
/// the wire can carry is kept exactly.
#[derive(Debug, PartialEq)]
pub enum JsonValue {
    Null,
    Bool(bool),
    Number(String),
    Str(String),
    Array(Vec<JsonValue>),
    Object(Vec<(String, JsonValue)>),
}

/// Whether `v` is an object with exactly one member, named `key`, whose value
/// is the boolean `b`.
pub open spec fn is_flag_object(v: JsonValue, key: Seq<char>, b: bool) -> bool {
    match v {
        JsonValue::Object(members) => members@.len() == 1 && members@[0].0@ == key
            && members@[0].1 == JsonValue::Bool(b),
        _ => false,
    }
}

/// Whether `v` is an object with exactly one member, named `key`, whose value
/// is the string `s`.
pub open spec fn is_text_object(v: JsonValue, key: Seq<char>, s: Seq<char>) -> bool {
    match v {
        JsonValue::Object(members) => members@.len() == 1 && members@[0].0@ == key && (
        match members@[0].1 {
            JsonValue::Str(t) => t@ == s,
            _ => false,
        }),
        _ => false,
    }
}

impl JsonValue {
    /// `{"<key>": <b>}`
    pub fn flag_object(key: &str, b: bool) -> (res: JsonValue)
        ensures
            is_flag_object(res, key@, b),
    {
        let mut members: Vec<(String, JsonValue)> = Vec::new();
        members.push((String::from_str(key), JsonValue::Bool(b)));
        JsonValue::Object(members)
    }

    /// `{"<key>": "<s>"}`
    pub fn text_object(key: &str, s: &str) -> (res: JsonValue)
        ensures
            is_text_object(res, key@, s@),
    {
        let mut members: Vec<(String, JsonValue)> = Vec::new();
        members.push((String::from_str(key), JsonValue::Str(String::from_str(s))));
        JsonValue::Object(members)
    }
}

/// A call: the client's id for it, the method, and its parameters (`null`
/// when the method takes none).
#[derive(Debug)]
pub struct Request {
    pub id: u64,
    pub method: Method,
    pub params: JsonValue,
}

impl Request {
    /// A request without parameters.
    pub fn new(id: u64, method: Method) -> (res: Request)
        ensures
            res.id == id,
            res.method == method,
            res.params == JsonValue::Null,
    {
        Request { id, method, params: JsonValue::Null }
    }
}

/// Why a call failed: a machine-readable code and a message for people.
#[derive(Debug, Clone)]
pub struct ProtoError {
    pub code: String,
    pub message: String,
}

/// The answer to a call. `ok` tells which of `result` and `error` is meant.
#[derive(Debug)]
pub struct Response {
    pub id: u64,
    pub ok: bool,
    pub result: Option<JsonValue>,
    pub error: Option<ProtoError>,
}

/// The text of `error_message`: `"<code>: <message>"`, or `"unknown error"`
/// when the response carries no error.
pub open spec fn error_text(r: Response) -> Seq<char> {
    match r.error {
        Some(e) => e.code@ + seq![':', ' '] + e.message@,
        None => "unknown error"@,
    }
}

impl Response {
    /// Whether `ok` agrees with the parts present: a successful response
    /// carries no error, a failed one carries an error and no result.
    pub open spec fn well_shaped(self) -> bool {
        &&& self.ok == (self.error is None)
        &&& !self.ok ==> self.result is None
    }

    /// A successful response. `result` is the serialized result, or `None`
    /// where the result could not be serialized.
    pub fn ok(id: u64, result: Option<JsonValue>) -> (res: Response)
        ensures
            res.id == id,
            res.ok,
            res.result == result,
            res.error is None,
            res.well_shaped(),
    {
        Response { id, ok: true, result, error: None }
    }

    /// A failed response with the given error code and message.
    pub fn error(id: u64, code: &str, message: &str) -> (res: Response)
        ensures
            res.id == id,
            !res.ok,
            res.result is None,
            res.error matches Some(e) && e.code@ == code@ && e.message@ == message@,
            res.well_shaped(),
    {
        Response {
            id,
            ok: false,
            result: None,
            error: Some(
                ProtoError { code: String::from_str(code), message: String::from_str(message) },
            ),
        }
    }

    /// The error for people to read: `"<code>: <message>"`, or
    /// `"unknown error"` when the response carries none.
    pub fn error_message(&self) -> (res: String)
        ensures
            res@ == error_text(*self),
    {
        match &self.error {
            Some(error) => {
                let mut out: Vec<char> = Vec::new();
                push_str(&mut out, error.code.as_str());
                push_str(&mut out, ": ");
                push_str(&mut out, error.message.as_str());
                proof {
                    reveal_strlit(": ");
                }
                assert(out@ =~= error_text(*self));
                string_of(&out)
            },
            None => String::from_str("unknown error"),
        }
    }
}

/// What `oneosd` reports about the running system.
#[derive(Debug, Clone)]
pub struct Status {
    pub version: String,
    pub os: String,
    pub hostname: String,
    pub uptime_secs: u64,
    pub boot_id: String,
}

/// Whether the graphical session runs, and systemd's word for its state.
#[derive(Debug, Clone)]
pub struct SessionState {
    pub active: bool,
    pub state: String,
}

/// One systemd unit as `service_list` reports it.
#[derive(Debug, Clone)]
pub struct ServiceInfo {
    pub unit: String,
    pub load: String,
    pub active: String,
    pub sub: String,
    pub description: String,
}

/// The parameters of the methods that act on one unit.
#[derive(Debug, Clone)]
pub struct UnitParam {
    pub unit: String,
}

/// The system's settings as `settings_show` reports them: the host name,
/// the time zone and the locale (each empty where it is not set).
#[derive(Debug, Clone)]
pub struct Settings {
    pub hostname: String,
    pub timezone: String,
    pub locale: String,
}

/// The parameters of `logs`: an optional unit and an optional line count.
#[derive(Debug, Clone)]
pub struct LogsParam {
    pub unit: Option<String>,
    pub lines: Option<u32>,
}

impl Default for LogsParam {
    /// Neither a unit nor a line count.
    fn default() -> (res: LogsParam)
        ensures
            res.unit is None,
            res.lines is None,
    {
        LogsParam { unit: None, lines: None }
    }
}

/// The value of the first member of `members` named `key`, if any.
pub open spec fn member(members: Seq<(String, JsonValue)>, key: Seq<char>) -> Option<JsonValue>
    decreases members.len(),
{
    if members.len() == 0 {
        None
    } else if members[0].0@ == key {
        Some(members[0].1)
    } else {
        member(members.drop_first(), key)
    }
}

/// The member of `members` named `key`, if any.
pub fn find_member<'a>(members: &'a Vec<(String, JsonValue)>, key: &str) -> (res: Option<
    &'a JsonValue,
>)
    ensures
        match res {
            Some(v) => member(members@, key@) == Some(*v),
            None => member(members@, key@) is None,
        },
{
    let mut i: usize = 0;
    assert(members@.skip(0) =~= members@);
    while i < members.len()
        invariant
            i <= members@.len(),
            member(members@.skip(i as int), key@) == member(members@, key@),
        decreases members.len() - i,
    {
        let ghost rest = members@.skip(i as int);
        assert(rest[0] == members@[i as int]);
        let name = chars_of(members[i].0.as_str());
        if chars_eq(&name, key) {
            return Some(&members[i].1);
        }
        assert(rest.drop_first() =~= members@.skip(i + 1));
        i = i + 1;
    }
    None
}

/// The unit that the parameters of a unit method name: the string member
/// `unit` of the parameter object.
pub open spec fn unit_param(params: JsonValue) -> Option<Seq<char>> {
    text_member(params, "unit"@)
}

/// The string member `key` of the parameter object `params`, if any.
pub open spec fn text_member(params: JsonValue, key: Seq<char>) -> Option<Seq<char>> {
    match params {
        JsonValue::Object(members) => match member(members@, key) {
            Some(JsonValue::Str(u)) => Some(u@),
            _ => None,
        },
        _ => None,
    }
}

/// Reads the string member `key` of the parameter object `params`.
pub fn text_param(params: &JsonValue, key: &str) -> (res: Option<String>)
    ensures
        match text_member(*params, key@) {
            Some(t) => res matches Some(r) && r@ == t,
            None => res is None,
        },
{
    match params {
        JsonValue::Object(members) => match find_member(members, key) {
            Some(JsonValue::Str(t)) => Some(t.clone()),
            _ => None,
        },
        _ => None,
    }
}

/// An optional string member: absent or `null` gives `Some(None)`, a string
/// gives its text, anything else is invalid (`None`).
pub open spec fn optional_text(v: Option<JsonValue>) -> Option<Option<Seq<char>>> {
    match v {
        None => Some(None),
        Some(JsonValue::Null) => Some(None),
        Some(JsonValue::Str(s)) => Some(Some(s@)),
        _ => None,
    }
}

/// An optional count: absent or `null` gives `Some(None)`, a number that
/// fits a `u32` gives it, anything else is invalid (`None`).
pub open spec fn optional_count(v: Option<JsonValue>) -> Option<Option<nat>> {
    match v {
        None => Some(None),
        Some(JsonValue::Null) => Some(None),
        Some(JsonValue::Number(t)) => match parse_unsigned(t@, u32::MAX as nat) {
            Some(n) => Some(Some(n)),
            None => None,
        },
        _ => None,
    }
}

/// The parameters of `logs`: no parameters (`null`) or an object whose
/// members `unit` (a string) and `lines` (a count) may each be absent or
/// `null`; `None` where they are anything else.
pub open spec fn logs_params(params: JsonValue) -> Option<(Option<Seq<char>>, Option<nat>)> {
    match params {
        JsonValue::Null => Some((None, None)),
        JsonValue::Object(members) => match (
            optional_text(member(members@, "unit"@)),
            optional_count(member(members@, "lines"@)),
        ) {
            (Some(u), Some(n)) => Some((u, n)),
            _ => None,
        },
        _ => None,
    }
}

impl UnitParam {
    /// Reads the parameters of a unit method.
    pub fn from_json(params: &JsonValue) -> (res: Option<UnitParam>)
        ensures
            match unit_param(*params) {
                Some(u) => res matches Some(p) && p.unit@ == u,
                None => res is None,
            },
    {
        match params {
            JsonValue::Object(members) => match find_member(members, "unit") {
                Some(JsonValue::Str(u)) => Some(UnitParam { unit: u.clone() }),
                _ => None,
            },
            _ => None,
        }
    }
}

impl LogsParam {
    /// Reads the parameters of `logs`.
    pub fn from_json(params: &JsonValue) -> (res: Option<LogsParam>)
        ensures
            match logs_params(*params) {
                Some((u, n)) => res matches Some(p) && (match (p.unit, u) {
                    (Some(a), Some(b)) => a@ == b,
                    (None, None) => true,
                    _ => false,
                }) && (match (p.lines, n) {
                    (Some(a), Some(b)) => a as nat == b,
                    (None, None) => true,
                    _ => false,
                }),
                None => res is None,
            },
    {
        let members = match params {
            JsonValue::Null => {
                return Some(LogsParam { unit: None, lines: None });
            },
            JsonValue::Object(members) => members,
            _ => {
                return None;
            },
        };
        let unit = match find_member(members, "unit") {
            None => None,
            Some(JsonValue::Null) => None,
            Some(JsonValue::Str(u)) => Some(u.clone()),
            Some(_) => {
                return None;
            },
        };
        let lines = match find_member(members, "lines") {
            None => None,
            Some(JsonValue::Null) => None,
            Some(JsonValue::Number(t)) => match parse_u32(t.as_str()) {
                Some(n) => Some(n),
                None => {
                    return None;
                },
            },
            Some(_) => {
                return None;
            },
        };
        Some(LogsParam { unit, lines })
    }
}

/// `configured` where it is given, else `default`.
pub fn configured_or(configured: Option<String>, default: &str) -> (res: String)
    ensures
        res@ == match configured {
            Some(p) => p@,
            None => default@,
        },
{
    match configured {
        Some(p) => p,
        None => String::from_str(default),
    }
}

/// The socket path: the value of `ONEO_SOCKET` where it is set (`configured`),
/// else `/run/oneos/oneosd.sock`.
pub fn socket_path(configured: Option<String>) -> (res: String)
    ensures
        res@ == match configured {
            Some(p) => p@,
            None => DEFAULT_SOCKET@,
        },
{
    configured_or(configured, DEFAULT_SOCKET)
}

/// Ends a serialized message with the newline that delimits it on the wire.
pub fn frame_message(payload: &mut Vec<u8>)
    ensures
        final(payload)@ == old(payload)@.push(10u8),
{
    payload.push(10u8);
}

/// The reply line read from the socket, or `None` when the read returned no
/// bytes: the peer closed the connection before answering.
pub fn reply_line(bytes_read: usize, line: String) -> (res: Option<String>)
    ensures
        bytes_read == 0 ==> res is None,
        bytes_read != 0 ==> res == Some(line),
{
    if bytes_read == 0 {
        None
    } else {
        Some(line)
    }
}

} // verus!
