use peach_config::error::PeachConfigError;
use peach_config::generate_manifest::{HardwareConfig, RtcOption};
use peach_config::script::{Action, Event, Session, Step};
use peach_config::setup_networking::configure_networking;
use peach_config::setup_peach::setup_peach;
use peach_config::setup_peach_deb::setup_peach_deb;
use peach_config::update::list_updates;
use peach_config::utils::{create_group_if_doesnt_exist, CommandOutcome};

fn ok(stdout: &str) -> Event {
    Event::Ran {
        outcome: CommandOutcome::Exited { success: true, stdout: stdout.as_bytes().to_vec(), stderr: vec![] },
    }
}

fn fail(stderr: &str) -> Event {
    Event::Ran {
        outcome: CommandOutcome::Exited { success: false, stdout: vec![], stderr: stderr.as_bytes().to_vec() },
    }
}

fn run_of(a: &Action) -> Vec<String> {
    match a {
        Action::Run { argv } => argv.clone(),
        other => panic!("not a command: {:?}", other),
    }
}

/// Runs a session on a fresh system: every command succeeds, but no user or
/// group exists yet. Returns the actions asked for.
fn run_all(steps: Vec<Step>, path_exists: bool) -> Vec<Action> {
    let mut s = Session::new(steps);
    let mut actions = Vec::new();
    loop {
        let a = s.next_action();
        let ev = match &a {
            Action::Run { argv } if argv[0] == "getent" => fail(""),
            Action::Run { .. } => ok("hash"),
            Action::CheckPath { .. } => Event::PathChecked { exists: path_exists },
            Action::Finish { .. } => {
                actions.push(a);
                return actions;
            }
            _ => Event::Completed { error: None },
        };
        actions.push(a);
        s.advance(ev);
    }
}

#[test]
fn group_is_added_when_absent() {
    let mut s = Session::new(create_group_if_doesnt_exist("peach"));
    assert_eq!(run_of(&s.next_action()), vec!["getent", "group", "peach"]);
    s.advance(fail(""));
    assert_eq!(run_of(&s.next_action()), vec!["/usr/sbin/groupadd", "peach"]);
    s.advance(ok(""));
    assert!(matches!(s.next_action(), Action::Finish { error: None }));
}

#[test]
fn group_creation_twice_only_asks_the_second_time() {
    // first run: absent, so added
    let mut s = Session::new(create_group_if_doesnt_exist("peach"));
    s.advance(fail(""));
    s.advance(ok(""));
    assert!(matches!(s.next_action(), Action::Finish { error: None }));
    // second run: present, so nothing is added and nothing fails
    let mut s = Session::new(create_group_if_doesnt_exist("peach"));
    assert_eq!(run_of(&s.next_action()), vec!["getent", "group", "peach"]);
    s.advance(ok("peach:x:1001:"));
    assert!(matches!(s.next_action(), Action::Finish { error: None }));
}

#[test]
fn setup_stops_at_failing_package_install() {
    let mut s = Session::new(setup_peach(true, false, true, Some(RtcOption::DS3231)));
    let first = run_of(&s.next_action());
    assert_eq!(&first[0..2], &["apt-get".to_string(), "install".to_string()]);
    s.advance(fail("E: Unable to locate package"));
    for _ in 0..5 {
        match s.next_action() {
            Action::Finish { error: Some(PeachConfigError::CmdError { msg, command }) } => {
                assert!(msg.contains("Unable to locate"));
                assert_eq!(command, first);
            }
            other => panic!("unexpected {:?}", other),
        }
        s.advance(ok(""));
    }
}

#[test]
fn setup_stops_midway_without_saving() {
    let mut s = Session::new(setup_peach(true, false, false, None));
    let mut n = 0;
    loop {
        let a = s.next_action();
        assert!(!matches!(a, Action::SaveHardwareConfig { .. }));
        if let Action::Finish { error } = a {
            assert!(error.is_some());
            break;
        }
        n += 1;
        // the tenth action fails
        if n == 10 {
            s.advance(fail("nope"));
        } else {
            s.advance(ok("x"));
        }
    }
}

#[test]
fn setup_saves_hardware_options_last() {
    let actions = run_all(setup_peach(true, true, true, Some(RtcOption::DS1307)), false);
    let n = actions.len();
    assert!(matches!(actions[n - 1], Action::Finish { error: None }));
    match &actions[n - 2] {
        Action::SaveHardwareConfig { config } => {
            assert_eq!(*config, HardwareConfig { i2c: true, rtc: Some(RtcOption::DS1307) })
        }
        other => panic!("unexpected {:?}", other),
    }
    let saves = actions.iter().filter(|a| matches!(a, Action::SaveHardwareConfig { .. })).count();
    assert_eq!(saves, 1);
    assert!(actions.iter().any(|a| matches!(a, Action::Run { argv } if argv[1] == "/var/lib/peachcloud/conf/config.txt_ds1307")));
}

#[test]
fn unattended_setup_creates_user_with_hashed_password() {
    let actions = run_all(setup_peach(true, false, false, None), false);
    let runs: Vec<Vec<String>> = actions.iter().filter_map(|a| match a {
        Action::Run { argv } => Some(argv.clone()),
        _ => None,
    }).collect();
    let i = runs.iter().position(|r| r[0] == "openssl").unwrap();
    assert_eq!(runs[i], vec!["openssl", "passwd", "-crypt", "peachcloud"]);
    assert_eq!(runs[i + 1], vec!["getent", "passwd", "peach"]);
    assert_eq!(
        runs[i + 2],
        vec!["/usr/sbin/useradd", "-m", "-p", "hash", "-g", "peach", "-s", "/bin/bash", "peach"]
    );
    // no locale questions when unattended, and no rtc without i2c
    assert!(!runs.iter().any(|r| r[0] == "dpkg-reconfigure"));
    assert!(!runs.iter().any(|r| r.iter().any(|a| a.contains("activate-rtc"))));
}

#[test]
fn existing_user_is_not_created_again() {
    let mut s = Session::new(setup_peach(true, false, false, None));
    loop {
        let a = s.next_action();
        let argv = run_of(&a);
        assert_ne!(argv[0], "/usr/sbin/useradd");
        s.advance(ok("present"));
        if argv[0] == "getent" && argv[1] == "passwd" {
            let next = run_of(&s.next_action());
            assert_eq!(next, vec!["usermod", "-aG", "sudo", "peach"]);
            break;
        }
    }
}

#[test]
fn interactive_setup_with_default_locale_writes_locale_file() {
    let actions = run_all(setup_peach(false, true, false, None), false);
    assert!(actions.iter().any(|a| matches!(a, Action::Run { argv } if argv == &vec!["/usr/sbin/adduser", "peach"])));
    assert!(actions.iter().any(|a| matches!(a,
        Action::WriteFile { path, contents } if path == "/etc/default/locale" && contents == "LANG=\"en_US.UTF-8\"")));
}

#[test]
fn networking_keeps_existing_wifi_credentials() {
    let with = run_all(configure_networking(), true);
    let without = run_all(configure_networking(), false);
    assert_eq!(without.len(), with.len() + 3);
    let wlan0 = "/etc/wpa_supplicant/wpa_supplicant-wlan0.conf";
    assert!(!with.iter().any(|a| matches!(a, Action::Run { argv } if argv.last().unwrap() == wlan0)));
    assert!(without.iter().any(|a| matches!(a, Action::Run { argv } if argv == &vec!["chmod", "660", wlan0])));
}

#[test]
fn peach_deb_copies_then_fetches_key() {
    let actions = run_all(setup_peach_deb(), false);
    assert_eq!(actions.len(), 5);
    assert_eq!(
        run_of(&actions[0]),
        vec!["cp", "/var/lib/peachcloud/conf/peach.list", "/etc/apt/sources.list.d/peach.list"]
    );
    assert_eq!(run_of(&actions[3]), vec!["rm", "/tmp/pubkey.gpg"]);
}

#[test]
fn listing_reports_filtered_lines() {
    let mut s = Session::new(list_updates());
    s.advance(ok(""));
    assert_eq!(run_of(&s.next_action()), vec!["apt", "list", "--upgradable"]);
    s.advance(ok("peach-oled/stable 1.1.0 arm64\nunrelated-pkg/stable 2.0.0 arm64\n"));
    match s.next_action() {
        Action::Report { upgradeable } => assert_eq!(upgradeable, vec!["peach-oled/stable 1.1.0 arm64"]),
        other => panic!("unexpected {:?}", other),
    }
    s.advance(Event::Completed { error: None });
    assert!(matches!(s.next_action(), Action::Finish { error: None }));
}

#[test]
fn failed_write_ends_the_session() {
    let mut s = Session::new(vec![
        Step::WriteFile { path: "/etc/x".to_string(), contents: "y".to_string() },
        Step::Run { argv: vec!["true".to_string()] },
    ]);
    s.advance(Event::Completed {
        error: Some(PeachConfigError::FileWriteError { file: "/etc/x".to_string(), reason: "denied".to_string() }),
    });
    assert!(matches!(s.next_action(), Action::Finish { error: Some(PeachConfigError::FileWriteError { .. }) }));
}

#[test]
fn launch_failure_ends_the_session() {
    let mut s = Session::new(vec![Step::Run { argv: vec!["nonexistent-binary".to_string()] }]);
    s.advance(Event::Ran { outcome: CommandOutcome::NotLaunched { reason: "not found".to_string() } });
    assert!(matches!(s.next_action(), Action::Finish { error: Some(PeachConfigError::CmdIoError { .. }) }));
}

#[test]
fn mismatched_event_changes_nothing() {
    let mut s = Session::new(vec![Step::Run { argv: vec!["true".to_string()] }]);
    s.advance(Event::PathChecked { exists: true });
    assert_eq!(run_of(&s.next_action()), vec!["true"]);
}
