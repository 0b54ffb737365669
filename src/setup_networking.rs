use vstd::prelude::*;

use crate::script::{copy_conf, copy_conf_spec, run, run_spec, steps_view, Step, StepView};

verus! {

/// The steps that set up systemd-networkd for the wired interface (eth0),
/// the wifi client (wlan0) and the access point (ap0), so that the device can
/// switch between client mode and access-point mode.
pub open spec fn networking_plan() -> Seq<StepView> {
    seq![
        run_spec(seq!["apt", "install", "-y", "libnss-resolve"]),
        copy_conf_spec("hostname"@, "/etc/hostname"@),
        copy_conf_spec("hosts"@, "/etc/hosts"@),
        run_spec(seq![
            "apt-get",
            "autoremove",
            "-y",
            "ifupdown",
            "dhcpcd5",
            "isc-dhcp-client",
            "isc-dhcp-common",
            "rsyslog",
        ]),
        run_spec(seq![
            "apt-mark",
            "hold",
            "ifupdown",
            "dhcpcd5",
            "isc-dhcp-client",
            "isc-dhcp-common",
            "rsyslog",
            "openresolv",
        ]),
        run_spec(seq!["rm", "-rf", "/etc/network", "/etc/dhcp"]),
        run_spec(seq!["apt-get", "autoremove", "-y", "avahi-daemon"]),
        run_spec(seq!["apt-mark", "hold", "avahi-daemon", "libnss-mdns"]),
        run_spec(seq!["ln", "-sf", "/run/systemd/resolve/stub-resolv.conf", "/etc/resolv.conf"]),
        run_spec(seq![
            "systemctl",
            "enable",
            "systemd-networkd.service",
            "systemd-resolved.service",
        ]),
        copy_conf_spec("network/04-wired.network"@, "/etc/systemd/network/04-wired.network"@),
        StepView::SkipIfPathExists { path: "/etc/wpa_supplicant/wpa_supplicant-wlan0.conf"@, skip: 3 },
        copy_conf_spec("network/wpa_supplicant-wlan0.conf"@, "/etc/wpa_supplicant/wpa_supplicant-wlan0.conf"@),
        run_spec(seq!["chmod", "660", "/etc/wpa_supplicant/wpa_supplicant-wlan0.conf"]),
        run_spec(seq!["chown", "root:netdev", "/etc/wpa_supplicant/wpa_supplicant-wlan0.conf"]),
        run_spec(seq!["systemctl", "disable", "wpa_supplicant.service"]),
        run_spec(seq!["systemctl", "enable", "wpa_supplicant@wlan0.service"]),
        copy_conf_spec("network/copy-wlan.sh"@, "/usr/local/bin/copy-wlan.sh"@),
        run_spec(seq!["chmod", "770", "/usr/local/bin/copy-wlan.sh"]),
        copy_conf_spec("network/copy-wlan.service"@, "/etc/systemd/system/copy-wlan.service"@),
        run_spec(seq!["systemctl", "enable", "copy-wlan.service"]),
        copy_conf_spec("network/wpa_supplicant-ap0.conf"@, "/etc/wpa_supplicant/wpa_supplicant-ap0.conf"@),
        run_spec(seq!["chmod", "600", "/etc/wpa_supplicant/wpa_supplicant-ap0.conf"]),
        copy_conf_spec("network/08-wlan0.network"@, "/etc/systemd/network/08-wlan0.network"@),
        copy_conf_spec("network/12-ap0.network"@, "/etc/systemd/network/12-ap0.network"@),
        run_spec(seq!["systemctl", "disable", "wpa_supplicant@ap0.service"]),
        copy_conf_spec("network/wpa_supplicant@ap0.service"@, "/etc/systemd/system/wpa_supplicant@ap0.service"@),
        run_spec(seq!["systemctl", "enable", "wpa_supplicant@wlan0.service"]),
        run_spec(seq!["systemctl", "disable", "wpa_supplicant@ap0.service"]),
        copy_conf_spec("ap_auto_deploy.sh"@, "/usr/local/bin/ap_auto_deploy"@),
        copy_conf_spec("network/ap-auto-deploy.service"@, "/etc/systemd/system/ap-auto-deploy.service"@),
        copy_conf_spec("network/ap-auto-deploy.timer"@, "/etc/systemd/system/ap-auto-deploy.timer"@),
    ]
}

/// Configures a Debian installation to use systemd-networkd for general
/// networking, with eth0, wlan0 and ap0. The wifi client's configuration is
/// copied only where none exists, so that saved credentials survive.
#[verifier::rlimit(50)]
pub fn configure_networking() -> (r: Vec<Step>)
    ensures
        steps_view(r@) == networking_plan(),
{
    let r = vec![
        run(&["apt", "install", "-y", "libnss-resolve"]),
        copy_conf("hostname", "/etc/hostname"),
        copy_conf("hosts", "/etc/hosts"),
        run(&[
            "apt-get",
            "autoremove",
            "-y",
            "ifupdown",
            "dhcpcd5",
            "isc-dhcp-client",
            "isc-dhcp-common",
            "rsyslog",
        ]),
        run(&[
            "apt-mark",
            "hold",
            "ifupdown",
            "dhcpcd5",
            "isc-dhcp-client",
            "isc-dhcp-common",
            "rsyslog",
            "openresolv",
        ]),
        run(&["rm", "-rf", "/etc/network", "/etc/dhcp"]),
        run(&["apt-get", "autoremove", "-y", "avahi-daemon"]),
        run(&["apt-mark", "hold", "avahi-daemon", "libnss-mdns"]),
        run(&["ln", "-sf", "/run/systemd/resolve/stub-resolv.conf", "/etc/resolv.conf"]),
        run(&["systemctl", "enable", "systemd-networkd.service", "systemd-resolved.service"]),
        copy_conf("network/04-wired.network", "/etc/systemd/network/04-wired.network"),
        Step::SkipIfPathExists { path: String::from_str("/etc/wpa_supplicant/wpa_supplicant-wlan0.conf"), skip: 3 },
        copy_conf("network/wpa_supplicant-wlan0.conf", "/etc/wpa_supplicant/wpa_supplicant-wlan0.conf"),
        run(&["chmod", "660", "/etc/wpa_supplicant/wpa_supplicant-wlan0.conf"]),
        run(&["chown", "root:netdev", "/etc/wpa_supplicant/wpa_supplicant-wlan0.conf"]),
        run(&["systemctl", "disable", "wpa_supplicant.service"]),
        run(&["systemctl", "enable", "wpa_supplicant@wlan0.service"]),
        copy_conf("network/copy-wlan.sh", "/usr/local/bin/copy-wlan.sh"),
        run(&["chmod", "770", "/usr/local/bin/copy-wlan.sh"]),
        copy_conf("network/copy-wlan.service", "/etc/systemd/system/copy-wlan.service"),
        run(&["systemctl", "enable", "copy-wlan.service"]),
        copy_conf("network/wpa_supplicant-ap0.conf", "/etc/wpa_supplicant/wpa_supplicant-ap0.conf"),
        run(&["chmod", "600", "/etc/wpa_supplicant/wpa_supplicant-ap0.conf"]),
        copy_conf("network/08-wlan0.network", "/etc/systemd/network/08-wlan0.network"),
        copy_conf("network/12-ap0.network", "/etc/systemd/network/12-ap0.network"),
        run(&["systemctl", "disable", "wpa_supplicant@ap0.service"]),
        copy_conf("network/wpa_supplicant@ap0.service", "/etc/systemd/system/wpa_supplicant@ap0.service"),
        run(&["systemctl", "enable", "wpa_supplicant@wlan0.service"]),
        run(&["systemctl", "disable", "wpa_supplicant@ap0.service"]),
        copy_conf("ap_auto_deploy.sh", "/usr/local/bin/ap_auto_deploy"),
        copy_conf("network/ap-auto-deploy.service", "/etc/systemd/system/ap-auto-deploy.service"),
        copy_conf("network/ap-auto-deploy.timer", "/etc/systemd/system/ap-auto-deploy.timer"),
    ];
    assert(steps_view(r@) =~~= networking_plan());
    r
}

} // verus!
