use systemd_webhook_notifier::error::NotifierError;
use systemd_webhook_notifier::logs::{
    invocation_logs_from_output, journal_args, journal_properties, parse_service_info, service_info_from_output, show_args,
    EnvironmentMap, ServiceInfo,
};
use systemd_webhook_notifier::text::IntErrorKind;
use systemd_webhook_notifier::webhook_structs::EmbedField;

fn strings(v: &[&str]) -> Vec<String> {
    v.iter().map(|s| s.to_string()).collect()
}

#[test]
fn parses_compact_report() {
    let out = "InvocationID=abc\nExecMainStartTimestamp=s\nExecMainExitTimestamp=e\n\
MemoryPeak=4096\nCPUUsageNSec=77\nEnvironment=A=1 A=2 \"B=x y\" C\nUser=root\n\
StatusErrno=0\nResult=success\nNames=ignored\n";
    let info = parse_service_info(out).unwrap();
    assert_eq!(info.invocation_id, "abc");
    assert_eq!(info.start_timestamp, "s");
    assert_eq!(info.exit_timestamp, "e");
    assert_eq!(info.memory_peak, 4096);
    assert_eq!(info.cpu_usage_ns, 77);
    assert_eq!(info.environment_str, "A=1 A=2 \"B=x y\" C");
    assert_eq!(info.environment_map.len(), 2);
    assert_eq!(info.environment_map.get("A").map(|s| s.as_str()), Some("2"));
    assert_eq!(info.environment_map.get("B").map(|s| s.as_str()), Some("x y"));
    assert!(info.environment_map.get("C").is_none());
    assert_eq!(info.user, "root");
    assert_eq!(info.status_errno, 0);
    assert_eq!(info.result, "success");
}

#[test]
fn numbers_must_parse() {
    assert_eq!(parse_service_info("MemoryPeak=[not set]").unwrap_err(), IntErrorKind::InvalidDigit);
    assert_eq!(parse_service_info("CPUUsageNSec=").unwrap_err(), IntErrorKind::Empty);
    assert_eq!(
        parse_service_info("StatusErrno=99999999999999999999").unwrap_err(),
        IntErrorKind::PosOverflow
    );
}

#[test]
fn defaults() {
    let info = ServiceInfo::default();
    assert_eq!(info.memory_peak, 0);
    assert_eq!(info.environment_map.len(), 0);
}

#[test]
fn environment_map_later_value_wins() {
    let mut m = EnvironmentMap::new();
    m.insert("K".to_string(), "1".to_string());
    m.insert("L".to_string(), "2".to_string());
    m.insert("K".to_string(), "3".to_string());
    assert_eq!(m.len(), 2);
    assert_eq!(m.get("K").unwrap(), "3");
    assert_eq!(m.get("L").unwrap(), "2");
    assert!(m.get("M").is_none());
    let from = EnvironmentMap::from_pairs(&vec![
        ("X".to_string(), "a".to_string()),
        ("X".to_string(), "b".to_string()),
    ]);
    assert_eq!(from.len(), 1);
    assert_eq!(from.get("X").unwrap(), "b");
}

#[test]
fn compact_report_arguments() {
    let mut expected = strings(&["show", "--no-pager"]);
    for p in journal_properties() {
        expected.push("-p".to_string());
        expected.push(p);
    }
    expected.push("nginx".to_string());
    assert_eq!(show_args("nginx"), expected);
    assert_eq!(journal_properties().len(), 9);
    assert_eq!(
        journal_args("id"),
        strings(&["--no-pager", "-o", "cat", "_SYSTEMD_INVOCATION_ID=id"])
    );
}

#[test]
fn compact_report_output() {
    let failed = service_info_from_output(false, vec![]).unwrap_err();
    assert_eq!(failed, NotifierError::CommandUnsuccessful);
    assert_eq!(failed.message(), "wh");
    assert_eq!(
        service_info_from_output(true, vec![0xff]).unwrap_err(),
        NotifierError::CorruptedOutput
    );
    assert_eq!(
        service_info_from_output(true, b"MemoryPeak=x".to_vec()).unwrap_err(),
        NotifierError::InvalidInteger { kind: IntErrorKind::InvalidDigit }
    );
    let info = service_info_from_output(true, b"User=\n".to_vec()).unwrap();
    assert_eq!(info.user, "");
}

#[test]
fn compact_journal_output() {
    let failed = invocation_logs_from_output(false, b"ignored".to_vec()).unwrap_err();
    assert_eq!(failed, NotifierError::CommandUnsuccessful);
    assert_eq!(failed.message(), "wh");
    assert_eq!(
        invocation_logs_from_output(true, vec![0xfe]).unwrap_err(),
        NotifierError::CorruptedOutput
    );
    assert_eq!(invocation_logs_from_output(true, b"line\n".to_vec()).unwrap(), "line\n");
}

#[test]
fn payload_types_from_webhook_structs() {
    let f = EmbedField::new("a", "b");
    assert!(!f.inline);
}
