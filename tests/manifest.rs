use std::collections::HashMap;

use peach_config::generate_manifest::{
    generate_manifest, get_currently_installed_microservices, package_versions,
    save_hardware_config, HardwareConfig, RtcOption,
};
use peach_config::script::Step;

const LISTING: &str = "Desired=Unknown/Install/Remove/Purge/Hold\n\
||/ Name           Version      Architecture Description\n\
+++-==============-============-============-=================================\n\
ii  bash           5.1-2        arm64        GNU Bourne Again SHell\n\
ii  peach-network  1.4.0        arm64        Networking microservice\n";

#[test]
fn installed_versions_keep_only_peach_packages() {
    let packages = get_currently_installed_microservices(LISTING).unwrap();
    let map: HashMap<String, String> = packages.into_iter().collect();
    let mut expected = HashMap::new();
    expected.insert("peach-network".to_string(), "1.4.0".to_string());
    assert_eq!(map, expected);
}

#[test]
fn installed_versions_of_several_packages() {
    let listing = "ii  peach-probe  1.2.0  arm64  probe\nii  peach-web  0.6.0  arm64  web\nii  vim  8.2  arm64  editor\n";
    let packages = get_currently_installed_microservices(listing).unwrap();
    assert_eq!(packages.len(), 2);
    let map: HashMap<String, String> = packages.into_iter().collect();
    assert_eq!(map["peach-probe"], "1.2.0");
    assert_eq!(map["peach-web"], "0.6.0");
}

#[test]
fn installed_versions_of_empty_listing() {
    assert!(get_currently_installed_microservices("").unwrap().is_empty());
}

#[test]
fn later_version_of_a_name_wins() {
    let caps = vec![
        (Some("peach-oled".to_string()), Some("1.0".to_string())),
        (Some("peach-web".to_string()), None),
        (Some("peach-oled".to_string()), Some("1.1".to_string())),
        (None, Some("9".to_string())),
    ];
    let r = package_versions(&caps);
    assert_eq!(r, vec![("peach-oled".to_string(), "1.1".to_string())]);
}

#[test]
fn manifest_carries_hardware_options() {
    let hw = HardwareConfig { i2c: true, rtc: Some(RtcOption::DS3231) };
    let m = generate_manifest(LISTING, Some(hw)).unwrap();
    assert_eq!(m.hardware, Some(hw));
    assert_eq!(m.packages, vec![("peach-network".to_string(), "1.4.0".to_string())]);
    let m = generate_manifest(LISTING, None).unwrap();
    assert_eq!(m.hardware, None);
}

#[test]
fn save_step_holds_the_options() {
    match save_hardware_config(true, Some(RtcOption::DS3231)) {
        Step::SaveHardwareConfig { config } => {
            assert_eq!(config, HardwareConfig { i2c: true, rtc: Some(RtcOption::DS3231) })
        }
        other => panic!("unexpected {:?}", other),
    }
}
