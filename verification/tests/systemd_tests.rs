use systemd_webhook_notifier::error::{NotifierError, SystemdTool};
use systemd_webhook_notifier::systemd_logs::{
    apply_output_line, backfill_user, environment_pairs, invocation_logs_from_output, journal_args,
    journal_properties, list_unit_files_args, parse_service_info, resolve_unit_file_name,
    service_info_from_output, show_args, unit_file_name, user_args, user_args_for,
    user_name_from_lookup, ServiceInfo, UNIT_SUFFIX_PATTERN,
};
use systemd_webhook_notifier::text::{chars_of, lines_of, IntErrorKind};

fn strings(v: &[&str]) -> Vec<String> {
    v.iter().map(|s| s.to_string()).collect()
}

fn pairs(v: &[(&str, &str)]) -> Vec<(String, String)> {
    v.iter().map(|(k, v)| (k.to_string(), v.to_string())).collect()
}

const SHOW_OUTPUT: &str = "Names=backup.service\n\
Description=Nightly backup\n\
TriggeredBy=backup.timer\n\
FragmentPath=/etc/systemd/system/backup.service\n\
InvocationID=0123456789abcdef\n\
ExecMainStartTimestamp=Mon 2024-01-01 03:00:00 UTC\n\
ExecMainExitTimestamp=Mon 2024-01-01 03:05:00 UTC\n\
MemoryPeak=[not set]\n\
CPUUsageNSec=1500000000\n\
Environment=PATH=/usr/bin \"GREETING=hello world\" FLAG\n\
User=backup\n\
ExecMainStatus=1\n\
Result=exit-code\n";

#[test]
fn parses_systemctl_show_output() {
    let info = parse_service_info(SHOW_OUTPUT).unwrap();
    assert_eq!(info.name, "backup.service");
    assert_eq!(info.description, "Nightly backup");
    assert_eq!(info.triggered_by, "backup.timer");
    assert_eq!(info.fragment_path, "/etc/systemd/system/backup.service");
    assert_eq!(info.invocation_id, "0123456789abcdef");
    assert_eq!(info.start_timestamp, "Mon 2024-01-01 03:00:00 UTC");
    assert_eq!(info.exit_timestamp, "Mon 2024-01-01 03:05:00 UTC");
    assert_eq!(info.memory_peak, None);
    assert_eq!(info.cpu_usage_ns, Some(1500000000));
    assert_eq!(info.environment_str, "PATH=/usr/bin \"GREETING=hello world\" FLAG");
    assert_eq!(
        info.environment_vals,
        pairs(&[("PATH", "/usr/bin"), ("GREETING", "hello world")])
    );
    assert_eq!(info.user, "backup");
    assert_eq!(info.main_status, 1);
    assert_eq!(info.result, "exit-code");
}

#[test]
fn unknown_keys_and_lines_without_eq_are_ignored() {
    let info = parse_service_info("Foo=bar\njust text\nUser=alice\r\n").unwrap();
    assert_eq!(info.user, "alice");
    assert_eq!(info.name, "");
    assert_eq!(info.main_status, 0);
}

#[test]
fn later_lines_win() {
    let info = parse_service_info("Result=success\nResult=failed").unwrap();
    assert_eq!(info.result, "failed");
}

#[test]
fn bad_exit_status_is_an_error() {
    assert_eq!(
        parse_service_info("Names=a\nExecMainStatus=abc\n").unwrap_err(),
        IntErrorKind::InvalidDigit
    );
    assert_eq!(parse_service_info("ExecMainStatus=").unwrap_err(), IntErrorKind::Empty);
    assert_eq!(parse_service_info("ExecMainStatus=-3").unwrap().main_status, -3);
}

#[test]
fn bad_numbers_become_none() {
    let info = parse_service_info("MemoryPeak=infinity\nCPUUsageNSec=-1\n").unwrap();
    assert_eq!(info.memory_peak, None);
    assert_eq!(info.cpu_usage_ns, None);
    let info = parse_service_info("MemoryPeak=4096\n").unwrap();
    assert_eq!(info.memory_peak, Some(4096));
}

#[test]
fn unbalanced_environment_keeps_raw_text() {
    let info = parse_service_info("Environment=A=1 \"B=2\n").unwrap();
    assert_eq!(info.environment_str, "A=1 \"B=2");
    assert!(info.environment_vals.is_empty());
}

#[test]
fn environment_is_split_by_shell_words() {
    let info = parse_service_info("Environment='X=a b' Y=c\\ d\n").unwrap();
    assert_eq!(info.environment_vals, pairs(&[("X", "a b"), ("Y", "c d")]));
}

#[test]
fn final_line_ending_reads_the_same() {
    let a = parse_service_info("User=bob\nResult=done").unwrap();
    let b = parse_service_info("User=bob\nResult=done\n").unwrap();
    let c = parse_service_info("User=bob\nResult=done\r\n").unwrap();
    assert_eq!(a.user, b.user);
    assert_eq!(a.result, b.result);
    assert_eq!(a.result, c.result);
    assert_eq!(a.result, "done");
}

#[test]
fn ignored_lines_change_nothing() {
    let plain = parse_service_info("User=bob\nResult=done").unwrap();
    let with_noise =
        parse_service_info("NoEquals\nUser=bob\nNames2=x\nEnv=y\nResult=done").unwrap();
    assert_eq!(plain.user, with_noise.user);
    assert_eq!(plain.result, with_noise.result);
    assert_eq!(plain.name, with_noise.name);
    assert_eq!(with_noise.name, "");
}

fn same_reading(a: &ServiceInfo, b: &ServiceInfo) -> bool {
    a.name == b.name
        && a.description == b.description
        && a.triggered_by == b.triggered_by
        && a.fragment_path == b.fragment_path
        && a.invocation_id == b.invocation_id
        && a.start_timestamp == b.start_timestamp
        && a.exit_timestamp == b.exit_timestamp
        && a.memory_peak == b.memory_peak
        && a.cpu_usage_ns == b.cpu_usage_ns
        && a.environment_str == b.environment_str
        && a.environment_vals == b.environment_vals
        && a.user == b.user
        && a.main_status == b.main_status
        && a.result == b.result
}

#[test]
fn inserted_blank_and_crlf_lines_change_nothing() {
    let plain = parse_service_info(SHOW_OUTPUT).unwrap();
    let variants = [
        format!("\n{}", SHOW_OUTPUT),
        format!("\r\n{}", SHOW_OUTPUT),
        format!("Unknown=1\r\n{}", SHOW_OUTPUT),
        SHOW_OUTPUT.replace("User=backup\n", "User=backup\n\n\nNoEquals\r\n"),
        SHOW_OUTPUT.replace("Result=exit-code\n", "Result=exit-code\n\nOther=x\n"),
    ];
    for v in variants.iter() {
        let noisy = parse_service_info(v).unwrap();
        assert!(same_reading(&plain, &noisy), "{:?}", v);
    }
}

#[test]
fn appended_last_lines_change_nothing() {
    let plain = parse_service_info(SHOW_OUTPUT).unwrap();
    let after_newline = parse_service_info(&format!("{}NoEquals\r", SHOW_OUTPUT)).unwrap();
    assert!(same_reading(&plain, &after_newline));
    let bare = "User=bob\nResult=done";
    let short = parse_service_info(bare).unwrap();
    let appended = parse_service_info(&format!("{}\nUnknown=1", bare)).unwrap();
    assert!(same_reading(&short, &appended));
    assert_eq!(appended.result, "done");
}

#[test]
fn error_messages() {
    assert_eq!(
        NotifierError::CommandFailed { tool: SystemdTool::Systemctl, code: Some(3) }.message(),
        "systemctl exited with status code 3"
    );
    assert_eq!(
        NotifierError::CommandFailed { tool: SystemdTool::Journalctl, code: None }.message(),
        "journalctl exited with status code N/A"
    );
    assert_eq!(NotifierError::CommandUnsuccessful.message(), "wh");
    assert_eq!(NotifierError::CorruptedOutput.message(), "stdout contained corrupted data");
    for (kind, text) in [
        (IntErrorKind::Empty, "".parse::<i64>().unwrap_err()),
        (IntErrorKind::InvalidDigit, "x".parse::<i64>().unwrap_err()),
        (IntErrorKind::PosOverflow, "99999999999999999999".parse::<i64>().unwrap_err()),
        (IntErrorKind::NegOverflow, "-99999999999999999999".parse::<i64>().unwrap_err()),
    ] {
        assert_eq!(NotifierError::InvalidInteger { kind }.message(), text.to_string());
    }
    assert_eq!(NotifierError::UserLookupFailed.message(), "Couldn't find user");
    assert_eq!(NotifierError::NoUserFound.message(), "No user found");
    assert_eq!(NotifierError::MissingServiceName.message(), "You must specify a service name.");
    assert_eq!(
        NotifierError::WebhookRejected { status: 404, body: "gone".to_string() }.message(),
        "gone"
    );
}

#[test]
fn parse_in_parts() {
    let first = "Names=a.service\nUser=bob";
    let rest = "User=carol\nResult=x\nExecMainStatus=2";
    let whole = parse_service_info(&format!("{first}\n{rest}")).unwrap();
    let mut stepwise = parse_service_info(first).unwrap();
    for line in lines_of(&chars_of(rest)) {
        apply_output_line(&mut stepwise, &line).unwrap();
    }
    for info in [&whole, &stepwise] {
        assert_eq!(info.name, "a.service");
        assert_eq!(info.user, "carol");
        assert_eq!(info.result, "x");
        assert_eq!(info.main_status, 2);
    }
}

#[test]
fn environment_pairs_split_at_first_eq() {
    let words = strings(&["A=1", "NOEQ", "B==2", "=empty"]);
    assert_eq!(
        environment_pairs(&words),
        pairs(&[("A", "1"), ("B", "=2"), ("", "empty")])
    );
    for (k, v) in environment_pairs(&words) {
        assert!(!k.contains('='));
        assert!(words.contains(&format!("{k}={v}")));
    }
}

#[test]
fn journal_properties_in_order() {
    assert_eq!(
        journal_properties(),
        strings(&[
            "Names",
            "Description",
            "TriggeredBy",
            "FragmentPath",
            "InvocationID",
            "ExecMainStartTimestamp",
            "ExecMainExitTimestamp",
            "MemoryPeak",
            "CPUUsageNSec",
            "Environment",
            "User",
            "ExecMainStatus",
            "Result",
        ])
    );
}

#[test]
fn show_args_list_every_property() {
    let args = show_args(&strings(&["--user"]), "backup.service");
    let mut expected = strings(&["--user", "show", "--no-pager"]);
    for p in journal_properties() {
        expected.push("-p".to_string());
        expected.push(p);
    }
    expected.push("backup.service".to_string());
    assert_eq!(args, expected);
    assert_eq!(show_args(&vec![], "x")[0], "show");
}

#[test]
fn journal_args_match_the_invocation() {
    assert_eq!(
        journal_args(&strings(&["--user"]), "abc"),
        strings(&["--user", "--no-pager", "-o", "cat", "_SYSTEMD_INVOCATION_ID=abc"])
    );
    assert_eq!(
        journal_args(&vec![], ""),
        strings(&["--no-pager", "-o", "cat", "_SYSTEMD_INVOCATION_ID="])
    );
}

#[test]
fn user_args_for_root_and_others() {
    assert_eq!(user_args_for(true), Vec::<String>::new());
    assert_eq!(user_args_for(false), strings(&["--user"]));
    let args = user_args();
    assert!(args.is_empty() || args == strings(&["--user"]));
    assert_eq!(args.is_empty(), nix::unistd::Uid::current().is_root());
}

#[test]
fn unit_names_get_service_suffix() {
    assert_eq!(unit_file_name("nginx", false), "nginx.service");
    assert_eq!(unit_file_name("nginx.timer", true), "nginx.timer");
    assert_eq!(resolve_unit_file_name("nginx"), "nginx.service");
    assert_eq!(resolve_unit_file_name("backup.timer"), "backup.timer");
    assert_eq!(resolve_unit_file_name("a.socket"), "a.socket");
    assert_eq!(resolve_unit_file_name("a.service"), "a.service");
    assert_eq!(resolve_unit_file_name("a.automount"), "a.automount");
    assert_eq!(resolve_unit_file_name("a.scope"), "a.scope");
    assert_eq!(resolve_unit_file_name("a.timerx"), "a.timerx.service");
    assert_eq!(resolve_unit_file_name("a.timer\n"), "a.timer\n.service");
    assert_eq!(resolve_unit_file_name("service"), "service.service");
    assert_eq!(resolve_unit_file_name("a-service"), "a-service.service");
    assert!(UNIT_SUFFIX_PATTERN.ends_with('$'));
}

#[test]
fn list_unit_files_arguments() {
    assert_eq!(
        list_unit_files_args(&strings(&["--user"]), "nginx.service"),
        strings(&["--user", "list-unit-files", "-q", "nginx.service"])
    );
}

#[test]
fn user_lookup_results() {
    assert_eq!(user_name_from_lookup(Ok(Some("bob".to_string()))), Ok("bob".to_string()));
    assert_eq!(user_name_from_lookup(Ok(None)), Err(NotifierError::NoUserFound));
    assert_eq!(
        user_name_from_lookup(Err(nix::errno::Errno::EIO)),
        Err(NotifierError::UserLookupFailed)
    );
}

#[test]
fn backfill_marks_the_user() {
    let mut info = ServiceInfo::default();
    backfill_user(&mut info, Ok("bob".to_string()));
    assert_eq!(info.user, "*bob");
    backfill_user(&mut info, Ok("carol".to_string()));
    assert_eq!(info.user, "*bob");
    let mut info = ServiceInfo::default();
    backfill_user(&mut info, Err(NotifierError::NoUserFound));
    assert_eq!(info.user, "");
}

#[test]
fn show_output_errors() {
    assert_eq!(
        service_info_from_output(false, Some(4), b"User=x".to_vec()).unwrap_err(),
        NotifierError::CommandFailed { tool: SystemdTool::Systemctl, code: Some(4) }
    );
    assert_eq!(
        service_info_from_output(false, None, vec![]).unwrap_err(),
        NotifierError::CommandFailed { tool: SystemdTool::Systemctl, code: None }
    );
    assert_eq!(
        service_info_from_output(true, Some(0), vec![0x55, 0xff, 0x3d]).unwrap_err(),
        NotifierError::CorruptedOutput
    );
    assert_eq!(
        service_info_from_output(true, Some(0), b"ExecMainStatus=x".to_vec()).unwrap_err(),
        NotifierError::InvalidInteger { kind: IntErrorKind::InvalidDigit }
    );
}

#[test]
fn show_output_success() {
    let (info, failure) =
        service_info_from_output(true, Some(0), SHOW_OUTPUT.as_bytes().to_vec()).unwrap();
    assert_eq!(info.user, "backup");
    assert_eq!(info.main_status, 1);
    assert!(failure.is_none());
    let (info, failure) =
        service_info_from_output(true, Some(0), b"Result=success\n".to_vec()).unwrap();
    assert_eq!(info.result, "success");
    match failure {
        Some(e) => {
            assert!(info.user.is_empty());
            assert!(e == NotifierError::NoUserFound || e == NotifierError::UserLookupFailed);
        }
        None => assert!(info.user.starts_with('*')),
    }
}

#[test]
fn journal_output() {
    assert_eq!(
        invocation_logs_from_output(false, Some(1), vec![]).unwrap_err(),
        NotifierError::CommandFailed { tool: SystemdTool::Journalctl, code: Some(1) }
    );
    assert_eq!(
        invocation_logs_from_output(true, Some(0), vec![0xc3]).unwrap_err(),
        NotifierError::CorruptedOutput
    );
    assert_eq!(
        invocation_logs_from_output(true, Some(0), "héllo\n".as_bytes().to_vec()).unwrap(),
        "héllo\n"
    );
}
