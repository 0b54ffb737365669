use peach_config::constants::services;
use peach_config::script::Step;
use peach_config::update::{
    list_available_updates, list_updates, run_update_self, services_except, update,
    update_microservices, UpdateOpts,
};

fn argv(parts: &[&str]) -> Vec<String> {
    parts.iter().map(|p| p.to_string()).collect()
}

fn run_argv(step: &Step) -> Vec<String> {
    match step {
        Step::Run { argv } => argv.clone(),
        other => panic!("not a command: {:?}", other),
    }
}

#[test]
fn update_microservices_installs_all_but_self_in_one_request() {
    let steps = update_microservices();
    assert_eq!(steps.len(), 2);
    assert_eq!(run_argv(&steps[0]), argv(&["apt-get", "update"]));
    let install = run_argv(&steps[1]);
    let mut expected = argv(&["apt-get", "install", "-y"]);
    for s in services() {
        if s != "peach-config" {
            expected.push(s);
        }
    }
    assert_eq!(install, expected);
    assert_eq!(install.len(), 3 + 10);
    assert!(!install.contains(&"peach-config".to_string()));
    assert!(install.contains(&"peach-go-sbot".to_string()));
}

#[test]
fn services_except_removes_every_copy() {
    let names = argv(&["a", "b", "a", "c"]);
    assert_eq!(services_except(&names, "a"), argv(&["b", "c"]));
    assert_eq!(services_except(&names, "z"), names);
    assert_eq!(services_except(&Vec::new(), "a"), Vec::<String>::new());
}

#[test]
fn update_self_refreshes_then_installs() {
    let steps = run_update_self();
    assert_eq!(steps.len(), 2);
    assert_eq!(run_argv(&steps[0]), argv(&["apt-get", "update"]));
    assert_eq!(run_argv(&steps[1]), argv(&["apt-get", "install", "-y", "peach-config"]));
}

#[test]
fn update_options_pick_the_steps() {
    let o = |microservices, self_only, list| UpdateOpts { microservices, self_only, list };
    assert_eq!(update(o(false, true, false)).len(), 2);
    assert_eq!(run_argv(&update(o(true, true, true))[1]), argv(&["apt-get", "install", "-y", "peach-config"]));
    assert_eq!(run_argv(&update(o(true, false, true))[1])[3], "peach-oled");
    assert_eq!(update(o(false, false, true)).len(), 3);
    let full = update(o(false, false, false));
    assert_eq!(full.len(), 3);
    assert_eq!(run_argv(&full[2]), argv(&["/usr/bin/peach-config", "update", "--microservices"]));
}

#[test]
fn list_steps_capture_then_report() {
    let steps = list_updates();
    assert!(matches!(&steps[1], Step::Capture { argv: a } if *a == argv(&["apt", "list", "--upgradable"])));
    assert!(matches!(&steps[2], Step::ReportUpgradeable { names } if *names == services()));
}

#[test]
fn available_updates_keep_only_service_lines() {
    let listing = "Listing...\npeach-oled/buster 1.1.0 arm64 [upgradable from: 1.0.0]\nunrelated-pkg/buster 2.0.0 arm64 [upgradable from: 1.9]";
    let out = list_available_updates(listing);
    assert_eq!(out.upgradeable, argv(&["peach-oled/buster 1.1.0 arm64 [upgradable from: 1.0.0]"]));
}

#[test]
fn available_updates_of_empty_listing() {
    assert!(list_available_updates("").upgradeable.is_empty());
    assert!(list_available_updates("\n\n").upgradeable.is_empty());
}

#[test]
fn available_updates_keep_order_and_every_match() {
    let listing = "peach-web/x 2.0\nbash/x 5\npeach-config/x 0.3\n";
    let out = list_available_updates(listing);
    assert_eq!(out.upgradeable, argv(&["peach-web/x 2.0", "peach-config/x 0.3"]));
}
