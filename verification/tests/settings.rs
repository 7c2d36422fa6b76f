use oneos::proto::Response;
use oneos::settings::{check_hostname, check_zone_name, settings, timezone_step, zoneinfo_path};

#[test]
fn host_names_follow_rfc_1123() {
    for good in ["oneos", "lab-1", "a.b-c.d", "x", "ONEOS.local", "1host"] {
        assert!(check_hostname(good), "{good}");
    }
    for bad in [
        "", "-oneos", "oneos-", ".oneos", "oneos.", "a..b", "a.-b", "a-.b", "one os", "one_os",
        "oneös", "a/b",
    ] {
        assert!(!check_hostname(bad), "{bad}");
    }
}

#[test]
fn host_name_labels_and_length_are_bounded() {
    let label63 = "a".repeat(63);
    let label64 = "a".repeat(64);
    assert!(check_hostname(&label63));
    assert!(!check_hostname(&label64));
    assert!(check_hostname(&format!("{label63}.{label63}")));
    assert!(!check_hostname(&format!("b.{label64}.c")));
    // 4 labels of 63 plus 3 dots: 255 characters, over the limit of 253.
    let long = [label63.as_str(); 4].join(".");
    assert_eq!(long.len(), 255);
    assert!(!check_hostname(&long));
    let at_limit = format!("{}.{}", [label63.as_str(); 3].join("."), "a".repeat(61));
    assert_eq!(at_limit.len(), 253);
    assert!(check_hostname(&at_limit));
}

#[test]
fn zone_names_stay_inside_the_database() {
    for good in ["UTC", "Asia/Shanghai", "America/Argentina/Buenos_Aires", "Etc/GMT+8"] {
        assert!(check_zone_name(good), "{good}");
    }
    for bad in ["", "/etc/passwd", "../etc/passwd", "Asia/../UTC", "Asia Shanghai"] {
        assert!(!check_zone_name(bad), "{bad}");
    }
    assert_eq!(zoneinfo_path("Asia/Shanghai"), "/usr/share/zoneinfo/Asia/Shanghai");
}

#[test]
fn missing_zone_file_is_unknown_timezone() {
    assert!(timezone_step(3, "UTC", true).is_none());
    let r: Response = timezone_step(3, "Mars/Base", false).unwrap();
    assert_eq!(r.id, 3);
    assert!(!r.ok);
    assert_eq!(r.error_message(), "unknown_timezone: Mars/Base: unknown time zone");
}

#[test]
fn settings_are_read_from_their_files() {
    let s = settings(
        Some("oneos\n"),
        Some("/usr/share/zoneinfo/Asia/Shanghai"),
        Some("# system locale\nLANG=\"zh_CN.UTF-8\"\nLC_TIME=C\n"),
    );
    assert_eq!(s.hostname, "oneos");
    assert_eq!(s.timezone, "Asia/Shanghai");
    assert_eq!(s.locale, "zh_CN.UTF-8");

    let s = settings(None, Some("../usr/share/zoneinfo/UTC"), Some("LANG=C.UTF-8"));
    assert_eq!(s.hostname, "");
    assert_eq!(s.timezone, "UTC");
    assert_eq!(s.locale, "C.UTF-8");

    let s = settings(Some("  lab  "), Some("/etc/zoneinfo-elsewhere"), None);
    assert_eq!(s.hostname, "lab");
    assert_eq!(s.timezone, "");
    assert_eq!(s.locale, "");
}
