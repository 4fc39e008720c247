use codex_runtime_policy::records::format_pid_record;
use codex_runtime_policy::records::parse_pid_record;

#[test]
fn pid_record_is_pid_then_version() {
    assert_eq!(format_pid_record(4242, "0.9.1"), "4242\n0.9.1\n");
    assert_eq!(format_pid_record(0, "v"), "0\nv\n");
    assert_eq!(format_pid_record(u32::MAX, "x"), "4294967295\nx\n");
}

#[test]
fn pid_record_round_trips() {
    let record = parse_pid_record(&format_pid_record(31337, "1.2.3")).expect("record parses");
    assert_eq!(record.pid, 31337);
    assert_eq!(record.version, Some("1.2.3".to_string()));
}

#[test]
fn pid_record_without_version_line() {
    let record = parse_pid_record("77").expect("a bare pid parses");
    assert_eq!(record.pid, 77);
    assert_eq!(record.version, None);
    let record = parse_pid_record("77\n\n").expect("an empty version line parses");
    assert_eq!(record.version, None);
}

#[test]
fn pid_record_rejects_what_is_no_pid() {
    assert!(parse_pid_record("").is_none());
    assert!(parse_pid_record("\n1.0\n").is_none());
    assert!(parse_pid_record("12a\n").is_none());
    assert!(parse_pid_record(" 12\n").is_none());
    assert!(parse_pid_record("4294967296\nx\n").is_none());
    assert!(parse_pid_record("99999999999999999999\n").is_none());
}
