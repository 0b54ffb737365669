//! The idempotent setup of a PeachCloud device.
use vstd::prelude::*;

use crate::constants::{strings, strs, strs_of};
use crate::generate_manifest::{save_hardware_config, HardwareConfig, RtcOption};
use crate::script::{
    action_of, advance_of, after, copy_conf, copy_conf_spec, extend_steps, is_over,
    lemma_failure_is_final, run, run_spec, steps_view, ActionView, EventView, SessionView, Step,
    StepView,
};
use crate::setup_networking::{configure_networking, networking_plan};
use crate::setup_peach_deb::{peach_deb_plan, setup_peach_deb};
use crate::update::{update_microservices, update_microservices_plan};
use crate::utils::{create_group_if_doesnt_exist, create_group_plan, user_query, user_query_spec};

verus! {

/// System users of the microservices.
pub const SERVICE_USERS: [&'static str; 7] = [
    "peach-buttons",
    "peach-menu",
    "peach-monitor",
    "peach-network",
    "peach-oled",
    "peach-stats",
    "peach-web",
];

/// Installs the operating-system packages that the appliance needs.
pub open spec fn base_packages_plan() -> Seq<StepView> {
    seq![
        run_spec(seq![
            "apt-get",
            "install",
            "vim",
            "man-db",
            "locales",
            "iw",
            "git",
            "python-smbus",
            "i2c-tools",
            "build-essential",
            "curl",
            "libnss-resolve",
            "mosh",
            "sudo",
            "pkg-config",
            "libssl-dev",
            "nginx",
            "wget",
            "-y",
        ]),
    ]
}

/// Installs the operating-system packages that the appliance needs.
fn base_packages_steps() -> (r: Vec<Step>)
    ensures
        steps_view(r@) == base_packages_plan(),
{
    let r = vec![
        run(&[
            "apt-get",
            "install",
            "vim",
            "man-db",
            "locales",
            "iw",
            "git",
            "python-smbus",
            "i2c-tools",
            "build-essential",
            "curl",
            "libnss-resolve",
            "mosh",
            "sudo",
            "pkg-config",
            "libssl-dev",
            "nginx",
            "wget",
            "-y",
        ]),
    ];
    assert(steps_view(r@) =~~= base_packages_plan());
    r
}

/// Gives the hardware-facing service users their extra groups.
pub open spec fn memberships_plan() -> Seq<StepView> {
    seq![
        run_spec(seq!["/usr/sbin/usermod", "-a", "-G", "gpio-user", "peach-buttons"]),
        run_spec(seq!["/usr/sbin/usermod", "-a", "-G", "netdev", "peach-network"]),
        run_spec(seq!["/usr/sbin/usermod", "-a", "-G", "i2c", "peach-oled"]),
    ]
}

/// Gives the hardware-facing service users their extra groups.
fn memberships_steps() -> (r: Vec<Step>)
    ensures
        steps_view(r@) == memberships_plan(),
{
    let r = vec![
        run(&["/usr/sbin/usermod", "-a", "-G", "gpio-user", "peach-buttons"]),
        run(&["/usr/sbin/usermod", "-a", "-G", "netdev", "peach-network"]),
        run(&["/usr/sbin/usermod", "-a", "-G", "i2c", "peach-oled"]),
    ];
    assert(steps_view(r@) =~~= memberships_plan());
    r
}

/// Puts the udev rules and the nginx site in place, and enables the site.
pub open spec fn static_files_plan() -> Seq<StepView> {
    seq![
        copy_conf_spec("50-gpio.rules"@, "/etc/udev/rules.d/50-gpio.rules"@),
        copy_conf_spec("peach.conf"@, "/etc/nginx/sites-available/peach.conf"@),
        run_spec(seq![
            "ln",
            "-sf",
            "/etc/nginx/sites-available/peach.conf",
            "/etc/nginx/sites-enabled/",
        ]),
    ]
}

/// Puts the udev rules and the nginx site in place, and enables the site.
fn static_files_steps() -> (r: Vec<Step>)
    ensures
        steps_view(r@) == static_files_plan(),
{
    let r = vec![
        copy_conf("50-gpio.rules", "/etc/udev/rules.d/50-gpio.rules"),
        copy_conf("peach.conf", "/etc/nginx/sites-available/peach.conf"),
        run(&["ln", "-sf", "/etc/nginx/sites-available/peach.conf", "/etc/nginx/sites-enabled/"]),
    ];
    assert(steps_view(r@) =~~= static_files_plan());
    r
}

/// Puts the I2C device-tree overlay and module list in place.
pub open spec fn i2c_plan() -> Seq<StepView> {
    seq![
        run_spec(seq!["mkdir", "-p", "/boot/firmware/overlays"]),
        copy_conf_spec("mygpio.dtbo"@, "/boot/firmware/overlays/mygpio.dtbo"@),
        copy_conf_spec("config.txt_i2c"@, "/boot/firmware/config.txt"@),
        copy_conf_spec("modules"@, "/etc/modules"@),
    ]
}

/// Puts the I2C device-tree overlay and module list in place.
fn i2c_steps() -> (r: Vec<Step>)
    ensures
        steps_view(r@) == i2c_plan(),
{
    let r = vec![
        run(&["mkdir", "-p", "/boot/firmware/overlays"]),
        copy_conf("mygpio.dtbo", "/boot/firmware/overlays/mygpio.dtbo"),
        copy_conf("config.txt_i2c", "/boot/firmware/config.txt"),
        copy_conf("modules", "/etc/modules"),
    ];
    assert(steps_view(r@) =~~= i2c_plan());
    r
}

/// Puts the real-time clock's modules and boot service in place and enables the service.
pub open spec fn rtc_service_plan() -> Seq<StepView> {
    seq![
        copy_conf_spec("modules_rtc"@, "/etc/modules"@),
        copy_conf_spec("activate_rtc.sh"@, "/usr/local/bin/activate_rtc"@),
        copy_conf_spec("activate-rtc.service"@, "/etc/systemd/system/activate-rtc.service"@),
        run_spec(seq!["systemctl", "daemon-reload"]),
        run_spec(seq!["systemctl", "enable", "activate-rtc"]),
    ]
}

/// Puts the real-time clock's modules and boot service in place and enables the service.
fn rtc_service_steps() -> (r: Vec<Step>)
    ensures
        steps_view(r@) == rtc_service_plan(),
{
    let r = vec![
        copy_conf("modules_rtc", "/etc/modules"),
        copy_conf("activate_rtc.sh", "/usr/local/bin/activate_rtc"),
        copy_conf("activate-rtc.service", "/etc/systemd/system/activate-rtc.service"),
        run(&["systemctl", "daemon-reload"]),
        run(&["systemctl", "enable", "activate-rtc"]),
    ];
    assert(steps_view(r@) =~~= rtc_service_plan());
    r
}

/// Makes en_US.UTF-8 the locale and applies it without questions.
pub open spec fn default_locale_plan() -> Seq<StepView> {
    seq![
        run_spec(seq![
            "sed",
            "-i",
            "-e",
            "s///  en_US.UTF-8 UTF-8/en_US.UTF-8 UTF-8/",
            "/etc/locale.gen",
        ]),
        StepView::WriteFile { path: "/etc/default/locale"@, contents: "LANG=\"en_US.UTF-8\""@ },
        run_spec(seq!["dpkg-reconfigure", "--frontend=noninteractive", "locales"]),
    ]
}

/// Makes en_US.UTF-8 the locale and applies it without questions.
fn default_locale_steps() -> (r: Vec<Step>)
    ensures
        steps_view(r@) == default_locale_plan(),
{
    let r = vec![
        run(&["sed", "-i", "-e", "s///  en_US.UTF-8 UTF-8/en_US.UTF-8 UTF-8/", "/etc/locale.gen"]),
        Step::WriteFile {
            path: String::from_str("/etc/default/locale"),
            contents: String::from_str("LANG=\"en_US.UTF-8\""),
        },
        run(&["dpkg-reconfigure", "--frontend=noninteractive", "locales"]),
    ];
    assert(steps_view(r@) =~~= default_locale_plan());
    r
}

/// Lets the appliance's users shut the device down through sudo.
pub open spec fn sudoers_plan() -> Seq<StepView> {
    seq![
        run_spec(seq!["mkdir", "-p", "/etc/sudoers.d"]),
        copy_conf_spec("shutdown"@, "/etc/sudoers.d/shutdown"@),
    ]
}

/// Lets the appliance's users shut the device down through sudo.
fn sudoers_steps() -> (r: Vec<Step>)
    ensures
        steps_view(r@) == sudoers_plan(),
{
    let r = vec![
        run(&["mkdir", "-p", "/etc/sudoers.d"]),
        copy_conf("shutdown", "/etc/sudoers.d/shutdown"),
    ];
    assert(steps_view(r@) =~~= sudoers_plan());
    r
}

/// Creates the system groups.
pub open spec fn groups_plan() -> Seq<StepView> {
    create_group_plan("peach"@) + create_group_plan("gpio-user"@)
}

/// The steps that create the `peach` user and put it in the `sudo` and
/// `peach` groups. Unattended, the user gets the default password, hashed by
/// openssl, and is created only when absent; otherwise adduser asks for one.
pub open spec fn user_plan(no_input: bool) -> Seq<StepView> {
    let create = if no_input {
        seq![
            StepView::Capture { argv: strs_of(seq!["openssl", "passwd", "-crypt", "peachcloud"]) },
            StepView::SkipIfFound { query: user_query_spec("peach"@), skip: 1 },
            StepView::RunWithCaptured {
                head: strs_of(seq!["/usr/sbin/useradd", "-m", "-p"]),
                tail: strs_of(seq!["-g", "peach", "-s", "/bin/bash", "peach"]),
            },
        ]
    } else {
        seq![run_spec(seq!["/usr/sbin/adduser", "peach"])]
    };
    create + seq![
        run_spec(seq!["usermod", "-aG", "sudo", "peach"]),
        run_spec(seq!["usermod", "-aG", "peach", "peach"]),
    ]
}

/// The step that creates the system user `name`, without a home directory,
/// in the `peach` group.
pub open spec fn system_user_spec(name: Seq<char>) -> StepView {
    StepView::Run {
        argv: seq![
            "/usr/sbin/adduser"@,
            "--system"@,
            "--no-create-home"@,
            "--ingroup"@,
            "peach"@,
            name,
        ],
    }
}

/// One system user per microservice.
pub open spec fn service_users_plan() -> Seq<StepView> {
    SERVICE_USERS@.map_values(|u: &str| system_user_spec(u@))
}

/// The boot configuration that goes with a model of real-time clock.
pub open spec fn rtc_boot_config(model: RtcOption) -> Seq<char> {
    match model {
        RtcOption::DS1307 => "config.txt_ds1307"@,
        RtcOption::DS3231 => "config.txt_ds3231"@,
    }
}

/// The real-time clock is set up only together with I2C.
pub open spec fn rtc_plan(i2c: bool, rtc: Option<RtcOption>) -> Seq<StepView> {
    match rtc {
        Some(model) => if i2c {
            seq![copy_conf_spec(rtc_boot_config(model), "/boot/firmware/config.txt"@)]
                + rtc_service_plan()
        } else {
            Seq::empty()
        },
        None => Seq::empty(),
    }
}

/// The locale is configured only when someone is there to answer; the
/// default locale is forced on request.
pub open spec fn locale_plan(no_input: bool, default_locale: bool) -> Seq<StepView> {
    if no_input {
        Seq::empty()
    } else if default_locale {
        seq![run_spec(seq!["dpkg-reconfigure", "locales"])] + default_locale_plan()
    } else {
        seq![run_spec(seq!["dpkg-reconfigure", "locales"])]
    }
}

/// Every step of setup, in order; the last one records the hardware options.
pub open spec fn setup_plan(
    no_input: bool,
    default_locale: bool,
    i2c: bool,
    rtc: Option<RtcOption>,
) -> Seq<StepView> {
    base_packages_plan() + groups_plan() + user_plan(no_input) + service_users_plan()
        + memberships_plan() + static_files_plan() + (if i2c {
        i2c_plan()
    } else {
        Seq::empty()
    }) + rtc_plan(i2c, rtc) + locale_plan(no_input, default_locale) + sudoers_plan()
        + peach_deb_plan() + update_microservices_plan() + networking_plan() + seq![
        StepView::SaveHardwareConfig { config: HardwareConfig { i2c, rtc } },
    ]
}

fn groups_steps() -> (r: Vec<Step>)
    ensures
        steps_view(r@) == groups_plan(),
{
    let mut r = create_group_if_doesnt_exist("peach");
    extend_steps(&mut r, create_group_if_doesnt_exist("gpio-user"));
    r
}

fn user_steps(no_input: bool) -> (r: Vec<Step>)
    ensures
        steps_view(r@) == user_plan(no_input),
{
    let mut r = if no_input {
        let r = vec![
            Step::Capture { argv: strings(&["openssl", "passwd", "-crypt", "peachcloud"]) },
            Step::SkipIfFound { query: user_query("peach"), skip: 1 },
            Step::RunWithCaptured {
                head: strings(&["/usr/sbin/useradd", "-m", "-p"]),
                tail: strings(&["-g", "peach", "-s", "/bin/bash", "peach"]),
            },
        ];
        r
    } else {
        vec![run(&["/usr/sbin/adduser", "peach"])]
    };
    extend_steps(
        &mut r,
        vec![run(&["usermod", "-aG", "sudo", "peach"]), run(&["usermod", "-aG", "peach", "peach"])],
    );
    assert(steps_view(r@) =~~= user_plan(no_input));
    r
}

/// The step that creates the system user `name`.
fn system_user(name: &str) -> (r: Step)
    ensures
        r@ == system_user_spec(name@),
{
    let argv = strings(
        &["/usr/sbin/adduser", "--system", "--no-create-home", "--ingroup", "peach", name],
    );
    assert(strs(argv@) =~= seq![
        "/usr/sbin/adduser"@,
        "--system"@,
        "--no-create-home"@,
        "--ingroup"@,
        "peach"@,
        name@,
    ]);
    Step::Run { argv }
}

fn service_users_steps() -> (r: Vec<Step>)
    ensures
        steps_view(r@) == service_users_plan(),
{
    let mut r: Vec<Step> = Vec::new();
    let mut i: usize = 0;
    while i < SERVICE_USERS.len()
        invariant
            i <= SERVICE_USERS@.len(),
            r@.len() == i,
            forall|k: int| 0 <= k < i ==> #[trigger] r@[k]@ == system_user_spec(SERVICE_USERS@[k]@),
        decreases SERVICE_USERS@.len() - i,
    {
        r.push(system_user(SERVICE_USERS[i]));
        i = i + 1;
    }
    assert(steps_view(r@) =~= service_users_plan());
    r
}

fn rtc_steps(i2c: bool, rtc: Option<RtcOption>) -> (r: Vec<Step>)
    ensures
        steps_view(r@) == rtc_plan(i2c, rtc),
{
    match rtc {
        Some(model) => if i2c {
            let boot = match model {
                RtcOption::DS1307 => copy_conf("config.txt_ds1307", "/boot/firmware/config.txt"),
                RtcOption::DS3231 => copy_conf("config.txt_ds3231", "/boot/firmware/config.txt"),
            };
            let mut r = vec![boot];
            extend_steps(&mut r, rtc_service_steps());
            assert(steps_view(r@) =~= rtc_plan(i2c, rtc));
            r
        } else {
            let r: Vec<Step> = Vec::new();
            assert(steps_view(r@) =~= rtc_plan(i2c, rtc));
            r
        },
        None => {
            let r: Vec<Step> = Vec::new();
            assert(steps_view(r@) =~= rtc_plan(i2c, rtc));
            r
        },
    }
}

fn locale_steps(no_input: bool, default_locale: bool) -> (r: Vec<Step>)
    ensures
        steps_view(r@) == locale_plan(no_input, default_locale),
{
    let mut r: Vec<Step> = Vec::new();
    if !no_input {
        r.push(run(&["dpkg-reconfigure", "locales"]));
        if default_locale {
            extend_steps(&mut r, default_locale_steps());
        }
    }
    assert(steps_view(r@) =~= locale_plan(no_input, default_locale));
    r
}

/// The idempotent setup of a PeachCloud device: system packages, groups and
/// users, configuration files, optional I2C and real-time clock, locale,
/// sudoers, the PeachCloud apt repository, the microservices, networking,
/// and last the record of the hardware options.
///
/// * `no_input` - run without asking anything of the user
/// * `default_locale` - force the en_US.UTF-8 locale (when not `no_input`)
/// * `i2c` - set up I2C for the display and buttons
/// * `rtc` - the model of real-time clock in use, if any (needs `i2c`)
///
/// Carried out by a [`crate::script::Session`], the first step that fails
/// ends the setup, before the hardware options are recorded.
#[verifier::rlimit(50)]
pub fn setup_peach(no_input: bool, default_locale: bool, i2c: bool, rtc: Option<RtcOption>) -> (r:
    Vec<Step>)
    ensures
        steps_view(r@) == setup_plan(no_input, default_locale, i2c, rtc),
{
    let mut r = base_packages_steps();
    extend_steps(&mut r, groups_steps());
    extend_steps(&mut r, user_steps(no_input));
    extend_steps(&mut r, service_users_steps());
    extend_steps(&mut r, memberships_steps());
    extend_steps(&mut r, static_files_steps());
    let i2c_part = if i2c {
        i2c_steps()
    } else {
        Vec::new()
    };
    extend_steps(&mut r, i2c_part);
    extend_steps(&mut r, rtc_steps(i2c, rtc));
    extend_steps(&mut r, locale_steps(no_input, default_locale));
    extend_steps(&mut r, sudoers_steps());
    extend_steps(&mut r, setup_peach_deb());
    extend_steps(&mut r, update_microservices());
    extend_steps(&mut r, configure_networking());
    extend_steps(&mut r, vec![save_hardware_config(i2c, rtc)]);
    r
}

/// Setup records the hardware options as its very last step, and a step
/// that fails ends the session where it stands: from then on, whatever is
/// reported, it asks for no further step, only to finish with that error. So
/// a setup that fails never records its hardware options.
pub proof fn lemma_setup_fail_fast(
    no_input: bool,
    default_locale: bool,
    i2c: bool,
    rtc: Option<RtcOption>,
    s: SessionView,
    ev: EventView,
    evs: Seq<EventView>,
)
    requires
        s.steps == setup_plan(no_input, default_locale, i2c, rtc),
        !is_over(s),
        advance_of(s, ev).failure is Some,
    ensures
        setup_plan(no_input, default_locale, i2c, rtc).last() == (StepView::SaveHardwareConfig {
            config: HardwareConfig { i2c, rtc },
        }),
        after(advance_of(s, ev), evs).pos == s.pos,
        action_of(after(advance_of(s, ev), evs)) == (ActionView::Finish {
            error: advance_of(s, ev).failure,
        }),
{
    lemma_failure_is_final(advance_of(s, ev), evs);
}

/// No step of `p` records the hardware options.
pub open spec fn saves_nothing(p: Seq<StepView>) -> bool {
    forall|i: int| 0 <= i < p.len() ==> !(#[trigger] p[i] is SaveHardwareConfig)
}

proof fn lemma_saves_nothing_concat(a: Seq<StepView>, b: Seq<StepView>)
    requires
        saves_nothing(a),
        saves_nothing(b),
    ensures
        saves_nothing(a + b),
{
    assert forall|i: int| 0 <= i < (a + b).len() implies !(#[trigger] (a + b)[i] is SaveHardwareConfig) by {
        if i < a.len() {
            assert((a + b)[i] == a[i]);
        } else {
            assert((a + b)[i] == b[i - a.len()]);
        }
    }
}

/// Setup records the hardware options once, in its last step, with the
/// options it was given: every step before it must have succeeded first.
pub proof fn lemma_setup_saves_last(
    no_input: bool,
    default_locale: bool,
    i2c: bool,
    rtc: Option<RtcOption>,
)
    ensures
        setup_plan(no_input, default_locale, i2c, rtc).last() == (StepView::SaveHardwareConfig {
            config: HardwareConfig { i2c, rtc },
        }),
        saves_nothing(setup_plan(no_input, default_locale, i2c, rtc).drop_last()),
{
    let i2c_part = if i2c {
        i2c_plan()
    } else {
        Seq::empty()
    };
    let parts = seq![
        base_packages_plan(),
        groups_plan(),
        user_plan(no_input),
        service_users_plan(),
        memberships_plan(),
        static_files_plan(),
        i2c_part,
        rtc_plan(i2c, rtc),
        locale_plan(no_input, default_locale),
        sudoers_plan(),
        peach_deb_plan(),
        update_microservices_plan(),
        networking_plan(),
    ];
    assert forall|k: int| 0 <= k < parts.len() implies saves_nothing(#[trigger] parts[k]) by {
        let p = parts[k];
        assert forall|i: int| 0 <= i < p.len() implies !(#[trigger] p[i] is SaveHardwareConfig) by {}
    }
    let prefix = base_packages_plan() + groups_plan() + user_plan(no_input) + service_users_plan()
        + memberships_plan() + static_files_plan() + i2c_part + rtc_plan(i2c, rtc) + locale_plan(
        no_input,
        default_locale,
    ) + sudoers_plan() + peach_deb_plan() + update_microservices_plan() + networking_plan();
    let mut acc = parts[0];
    lemma_saves_nothing_concat(acc, parts[1]);
    acc = acc + parts[1];
    lemma_saves_nothing_concat(acc, parts[2]);
    acc = acc + parts[2];
    lemma_saves_nothing_concat(acc, parts[3]);
    acc = acc + parts[3];
    lemma_saves_nothing_concat(acc, parts[4]);
    acc = acc + parts[4];
    lemma_saves_nothing_concat(acc, parts[5]);
    acc = acc + parts[5];
    lemma_saves_nothing_concat(acc, parts[6]);
    acc = acc + parts[6];
    lemma_saves_nothing_concat(acc, parts[7]);
    acc = acc + parts[7];
    lemma_saves_nothing_concat(acc, parts[8]);
    acc = acc + parts[8];
    lemma_saves_nothing_concat(acc, parts[9]);
    acc = acc + parts[9];
    lemma_saves_nothing_concat(acc, parts[10]);
    acc = acc + parts[10];
    lemma_saves_nothing_concat(acc, parts[11]);
    acc = acc + parts[11];
    lemma_saves_nothing_concat(acc, parts[12]);
    acc = acc + parts[12];
    assert(acc == prefix);
    assert(setup_plan(no_input, default_locale, i2c, rtc).drop_last() =~= prefix);
}

} // verus!
