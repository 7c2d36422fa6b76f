//! The system settings `oneosd` shows and changes: host name, time zone and
//! locale, and the checks a new host name or time zone must pass before
//! `hostnamectl` or `timedatectl` is asked to apply it.
use vstd::prelude::*;

use crate::daemon::is_error_response;
use crate::proto::{Response, Settings};
use crate::text::{
    chars_of, find_value, first_value, has_prefix, joined, lines, push_str, split_lines,
    starts_with, strip_both, strip_bounds, strip_pred, string_of, sub_chars, trim, trimmed,
};

verus! {

/// A character a host name label may hold: an ASCII letter, digit or `-`.
pub open spec fn is_label_char(c: char) -> bool {
    ('a' <= c <= 'z') || ('A' <= c <= 'Z') || ('0' <= c <= '9') || c == '-'
}

/// Whether one of the 64 characters of `h` from `i` on is a dot.
pub open spec fn dot_within(h: Seq<char>, i: int) -> bool {
    exists|k: int| i <= k < i + 64 && #[trigger] h[k] == '.'
}

/// Whether `h` is a host name in the style of RFC 1123: 1 to 253
/// characters, dot-separated labels of 1 to 63 letters, digits and `-`,
/// no label beginning or ending with `-`.
pub open spec fn valid_hostname(h: Seq<char>) -> bool {
    &&& 1 <= h.len() <= 253
    &&& forall|i: int| 0 <= i < h.len() ==> is_label_char(#[trigger] h[i]) || h[i] == '.'
    &&& h[0] != '.' && h[0] != '-'
    &&& h.last() != '.' && h.last() != '-'
    &&& forall|i: int|
        0 < i < h.len() - 1 && #[trigger] h[i] == '.' ==> h[i - 1] != '-' && h[i + 1] != '-'
            && h[i + 1] != '.'
    &&& forall|i: int| 0 <= i && i + 64 <= h.len() ==> #[trigger] dot_within(h, i)
}

fn is_label(c: char) -> (res: bool)
    ensures
        res == is_label_char(c),
{
    ('a' <= c && c <= 'z') || ('A' <= c && c <= 'Z') || ('0' <= c && c <= '9') || c == '-'
}

/// Checks a new host name as `valid_hostname` says.
pub fn check_hostname(name: &str) -> (res: bool)
    ensures
        res == valid_hostname(name@),
{
    let h = chars_of(name);
    let n = h.len();
    if n < 1 || n > 253 {
        return false;
    }
    if h[0] == '.' || h[0] == '-' || h[n - 1] == '.' || h[n - 1] == '-' {
        return false;
    }
    let mut i: usize = 0;
    // `run`: how many characters before `i` follow the last dot.
    let mut run: usize = 0;
    while i < n
        invariant
            n == h@.len(),
            h@ == name@,
            1 <= n <= 253,
            i <= n,
            h@[0] != '.' && h@[0] != '-',
            h@[n - 1] != '.' && h@[n - 1] != '-',
            run <= i,
            run <= 63,
            forall|k: int| i - run <= k < i ==> #[trigger] h@[k] != '.',
            i - run > 0 ==> h@[i - run - 1] == '.',
            forall|k: int| 0 <= k < i ==> is_label_char(#[trigger] h@[k]) || h@[k] == '.',
            forall|k: int|
                0 < k < n - 1 && k < i && #[trigger] h@[k] == '.' ==> h@[k - 1] != '-' && h@[k
                    + 1] != '-' && h@[k + 1] != '.',
            forall|j: int| 0 <= j && j + 64 <= i ==> #[trigger] dot_within(h@, j),
        decreases n - i,
    {
        let c = h[i];
        if c == '.' {
            if h[i - 1] == '-' || h[i + 1] == '-' || h[i + 1] == '.' {
                assert(0 < i < n - 1);
                return false;
            }
            run = 0;
        } else {
            if !is_label(c) {
                return false;
            }
            if run == 63 {
                proof {
                    let j = i - 63;
                    assert forall|k: int| j <= k < j + 64 implies #[trigger] h@[k] != '.' by {}
                    if j > 0 {
                        assert(h@[j - 1] == '.');
                    }
                    assert(!dot_within(h@, j));
                    assert(!valid_hostname(name@)) by {
                        if valid_hostname(name@) {
                            assert(0 <= j && j + 64 <= h@.len());
                            assert(dot_within(h@, j));
                        }
                    }
                }
                return false;
            }
            proof {
                assert forall|j: int| 0 <= j && j + 64 <= i + 1 implies #[trigger] dot_within(
                    h@,
                    j,
                ) by {
                    if j + 64 == i + 1 {
                        let k = i - run - 1;
                        assert(h@[k] == '.');
                    }
                }
            }
            run = run + 1;
        }
        i = i + 1;
    }
    true
}

/// A character a time zone name may hold: an ASCII letter or digit, `_`,
/// `+`, `-` or `/`.
pub open spec fn is_zone_char(c: char) -> bool {
    ('a' <= c <= 'z') || ('A' <= c <= 'Z') || ('0' <= c <= '9') || c == '_' || c == '+' || c
        == '-' || c == '/'
}

/// Whether `z` can name a file under `/usr/share/zoneinfo`: not empty, not
/// beginning with `/`, and made of `is_zone_char` characters only (so no
/// `.` and no way out of the directory).
pub open spec fn valid_zone_name(z: Seq<char>) -> bool {
    &&& z.len() > 0
    &&& z[0] != '/'
    &&& forall|i: int| 0 <= i < z.len() ==> is_zone_char(#[trigger] z[i])
}

/// Checks the syntax of a new time zone as `valid_zone_name` says.
pub fn check_zone_name(zone: &str) -> (res: bool)
    ensures
        res == valid_zone_name(zone@),
{
    let z = chars_of(zone);
    if z.len() == 0 || z[0] == '/' {
        return false;
    }
    let mut i: usize = 0;
    while i < z.len()
        invariant
            i <= z@.len(),
            z@ == zone@,
            forall|k: int| 0 <= k < i ==> is_zone_char(#[trigger] z@[k]),
        decreases z.len() - i,
    {
        let c = z[i];
        if !(('a' <= c && c <= 'z') || ('A' <= c && c <= 'Z') || ('0' <= c && c <= '9') || c
            == '_' || c == '+' || c == '-' || c == '/') {
            return false;
        }
        i = i + 1;
    }
    true
}

/// Where the time zone database keeps the zone `zone`.
pub open spec fn zoneinfo_dir() -> Seq<char> {
    "/usr/share/zoneinfo/"@
}

/// The path of the zone file of `zone`.
pub fn zoneinfo_path(zone: &str) -> (res: String)
    ensures
        res@ == zoneinfo_dir() + zone@,
{
    let mut out: Vec<char> = Vec::new();
    push_str(&mut out, "/usr/share/zoneinfo/");
    push_str(&mut out, zone);
    string_of(&out)
}

/// The message of the answer for a time zone without a zone file.
pub open spec fn unknown_zone_message(z: Seq<char>) -> Seq<char> {
    z + ": unknown time zone"@
}

/// Whether the new time zone `zone` may be applied, given whether its zone
/// file exists: where it does not, call `id` is answered `unknown_timezone`.
pub fn timezone_step(id: u64, zone: &str, exists: bool) -> (res: Option<Response>)
    ensures
        exists ==> res is None,
        !exists ==> (res matches Some(r) && is_error_response(
            r,
            id,
            "unknown_timezone"@,
            unknown_zone_message(zone@),
        )),
{
    if exists {
        None
    } else {
        let message = joined(zone, ": unknown time zone");
        Some(Response::error(id, "unknown_timezone", message.as_str()))
    }
}

/// The time zone that the target of the `/etc/localtime` link names: the
/// rest after the zone database's directory (absolute or relative to
/// `/etc`), else empty.
pub open spec fn zone_of_link(target: Seq<char>) -> Seq<char> {
    if has_prefix(target, "/usr/share/zoneinfo/"@) {
        target.skip("/usr/share/zoneinfo/"@.len() as int)
    } else if has_prefix(target, "../usr/share/zoneinfo/"@) {
        target.skip("../usr/share/zoneinfo/"@.len() as int)
    } else {
        Seq::<char>::empty()
    }
}

/// The locale that the contents of `/etc/locale.conf` set: the value of the
/// first `LANG=` line without surrounding double quotes, else empty.
pub open spec fn locale_of(conf: Seq<char>) -> Seq<char> {
    match first_value(lines(conf), "LANG="@) {
        Some(v) => strip_both(v, strip_pred(Some('"'))),
        None => Seq::<char>::empty(),
    }
}

/// The rest of `cs` after `prefix`, where `cs` begins with it.
fn after_prefix(cs: &Vec<char>, prefix: &str) -> (res: Option<Vec<char>>)
    ensures
        has_prefix(cs@, prefix@) ==> (res matches Some(r) && r@ == cs@.skip(
            prefix@.len() as int,
        )),
        !has_prefix(cs@, prefix@) ==> res is None,
{
    let p = chars_of(prefix);
    if starts_with(cs, &p) {
        let r = sub_chars(cs, p.len(), cs.len());
        assert(r@ =~= cs@.skip(prefix@.len() as int));
        Some(r)
    } else {
        None
    }
}

/// The settings from the contents of `/etc/hostname`, the target of the
/// `/etc/localtime` link and the contents of `/etc/locale.conf` (each `None`
/// where it could not be read): the trimmed host name, the zone that the
/// link names and the `LANG` of the locale file, each empty where missing.
pub fn settings(hostname_file: Option<&str>, localtime_target: Option<&str>, locale_conf: Option<
    &str,
>) -> (res: Settings)
    ensures
        res.hostname@ == match hostname_file {
            Some(h) => trim(h@),
            None => Seq::<char>::empty(),
        },
        res.timezone@ == match localtime_target {
            Some(t) => zone_of_link(t@),
            None => Seq::<char>::empty(),
        },
        res.locale@ == match locale_conf {
            Some(c) => locale_of(c@),
            None => Seq::<char>::empty(),
        },
{
    let hostname = match hostname_file {
        Some(h) => trimmed(h),
        None => String::new(),
    };
    let timezone = match localtime_target {
        Some(t) => {
            let cs = chars_of(t);
            match after_prefix(&cs, "/usr/share/zoneinfo/") {
                Some(rest) => string_of(&rest),
                None => match after_prefix(&cs, "../usr/share/zoneinfo/") {
                    Some(rest) => string_of(&rest),
                    None => String::new(),
                },
            }
        },
        None => String::new(),
    };
    let locale = match locale_conf {
        Some(c) => {
            let cs = chars_of(c);
            let ls = split_lines(&cs);
            let key = chars_of("LANG=");
            match find_value(&ls, &key) {
                Some(v) => {
                    let (a, b) = strip_bounds(&v, Some('"'));
                    let t = sub_chars(&v, a, b);
                    string_of(&t)
                },
                None => String::new(),
            }
        },
        None => String::new(),
    };
    Settings { hostname, timezone, locale }
}

} // verus!
