use peach_config::error::PeachConfigError;
use peach_config::script::Step;
use peach_config::utils::{
    cmd, conf, create_group_if_doesnt_exist, does_user_exist, get_output, trim_newline_string,
    CommandOutcome,
};

fn argv(parts: &[&str]) -> Vec<String> {
    parts.iter().map(|p| p.to_string()).collect()
}

fn exited(success: bool, stdout: &str, stderr: &str) -> CommandOutcome {
    CommandOutcome::Exited {
        success,
        stdout: stdout.as_bytes().to_vec(),
        stderr: stderr.as_bytes().to_vec(),
    }
}

#[test]
fn conf_joins_staging_directory() {
    assert_eq!(conf("peach.list"), "/var/lib/peachcloud/conf/peach.list");
    assert_eq!(conf("network/04-wired.network"), "/var/lib/peachcloud/conf/network/04-wired.network");
    assert_eq!(conf(""), "/var/lib/peachcloud/conf/");
}

#[test]
fn missing_program_is_a_launch_error() {
    let args = argv(&["no-such-program-here", "x"]);
    let r = cmd(&args, CommandOutcome::NotLaunched { reason: "No such file or directory".to_string() });
    match r {
        Err(PeachConfigError::CmdIoError { command, reason }) => {
            assert_eq!(command, args);
            assert_eq!(reason, "No such file or directory");
        }
        other => panic!("unexpected {:?}", other),
    }
}

#[test]
fn failing_program_reports_its_stderr() {
    let args = argv(&["sh", "-c", "echo boom >&2; exit 1"]);
    let r = cmd(&args, exited(false, "", "boom"));
    match r {
        Err(PeachConfigError::CmdError { msg, command }) => {
            assert!(msg.contains("boom"));
            assert_eq!(command, args);
        }
        other => panic!("unexpected {:?}", other),
    }
}

#[test]
fn undecodable_stderr_is_an_output_error() {
    let args = argv(&["false"]);
    let outcome = CommandOutcome::Exited { success: false, stdout: vec![], stderr: vec![0xff, 0xfe] };
    match cmd(&args, outcome) {
        Err(PeachConfigError::CmdParseOutputError { command }) => assert_eq!(command, args),
        other => panic!("unexpected {:?}", other),
    }
}

#[test]
fn successful_program_hands_back_its_output() {
    let args = argv(&["echo", "hi"]);
    let out = cmd(&args, exited(true, "hi\n", "warn")).unwrap();
    assert_eq!(out.stdout, b"hi\n".to_vec());
    assert_eq!(out.stderr, b"warn".to_vec());
}

#[test]
fn get_output_removes_one_trailing_newline() {
    let args = argv(&["openssl", "passwd"]);
    assert_eq!(get_output(&args, exited(true, "abc\n", "")).unwrap(), "abc");
    assert_eq!(get_output(&args, exited(true, "abc\n\n", "")).unwrap(), "abc\n");
    assert_eq!(get_output(&args, exited(true, "abc", "")).unwrap(), "abc");
    assert_eq!(get_output(&args, exited(true, "", "")).unwrap(), "");
}

#[test]
fn get_output_rejects_undecodable_stdout() {
    let args = argv(&["dpkg", "-l"]);
    let outcome = CommandOutcome::Exited { success: true, stdout: vec![0xc3], stderr: vec![] };
    assert!(matches!(get_output(&args, outcome), Err(PeachConfigError::CmdParseOutputError { .. })));
}

#[test]
fn get_output_passes_command_errors_on() {
    let args = argv(&["dpkg", "-l"]);
    assert!(matches!(get_output(&args, exited(false, "", "bad")), Err(PeachConfigError::CmdError { .. })));
}

#[test]
fn trim_keeps_text_without_newline() {
    assert_eq!(trim_newline_string("é\n".to_string()), "é");
    assert_eq!(trim_newline_string("\n".to_string()), "");
}

#[test]
fn user_existence_follows_query_status() {
    assert!(does_user_exist("peach", exited(true, "peach:x:1000", "")).unwrap());
    assert!(!does_user_exist("peach", exited(false, "", "")).unwrap());
    match does_user_exist("peach", CommandOutcome::NotLaunched { reason: "gone".to_string() }) {
        Err(PeachConfigError::CmdIoError { command, .. }) => {
            assert_eq!(command, argv(&["getent", "passwd", "peach"]))
        }
        other => panic!("unexpected {:?}", other),
    }
}

#[test]
fn group_creation_asks_before_adding() {
    let steps = create_group_if_doesnt_exist("gpio-user");
    assert_eq!(steps.len(), 2);
    match &steps[0] {
        Step::SkipIfFound { query, skip } => {
            assert_eq!(query, &argv(&["getent", "group", "gpio-user"]));
            assert_eq!(*skip, 1);
        }
        other => panic!("unexpected {:?}", other),
    }
    match &steps[1] {
        Step::Run { argv: a } => assert_eq!(a, &argv(&["/usr/sbin/groupadd", "gpio-user"])),
        other => panic!("unexpected {:?}", other),
    }
}
