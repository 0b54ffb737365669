use vstd::prelude::*;

verus! {

/// Directory on the device where configuration files are kept before they
/// are copied to their final locations.
pub const CONF: &'static str = "/var/lib/peachcloud/conf";

/// Where the hardware options of the last successful setup are recorded.
/// This is a log of what setup did, kept apart from the user-editable
/// configuration.
pub const HARDWARE_CONFIG_FILE: &'static str = "/var/lib/peachcloud/hardware_config.json";

/// The package of this command-line tool, which is left out of batch updates.
pub const SELF_PACKAGE: &'static str = "peach-config";

/// Packages installed through apt-get that together make up the appliance.
pub const SERVICES: [&'static str; 11] = [
    "peach-oled",
    "peach-network",
    "peach-stats",
    "peach-web",
    "peach-menu",
    "peach-buttons",
    "peach-monitor",
    "peach-probe",
    "peach-dyndns-updater",
    "peach-go-sbot",
    "peach-config",
];

/// The views of a sequence of strings.
pub open spec fn strs(v: Seq<String>) -> Seq<Seq<char>> {
    v.map_values(|x: String| x@)
}

/// The views of a sequence of string slices.
pub open spec fn strs_of(v: Seq<&str>) -> Seq<Seq<char>> {
    v.map_values(|x: &str| x@)
}

/// The names of the appliance's packages.
pub open spec fn services_spec() -> Seq<Seq<char>> {
    strs_of(SERVICES@)
}

/// Owned copies of a list of string slices.
pub fn strings(parts: &[&str]) -> (r: Vec<String>)
    ensures
        strs(r@) == strs_of(parts@),
{
    let mut r: Vec<String> = Vec::new();
    let mut i: usize = 0;
    while i < parts.len()
        invariant
            i <= parts@.len(),
            r@.len() == i,
            forall|k: int| 0 <= k < i ==> #[trigger] r@[k]@ == parts@[k]@,
        decreases parts@.len() - i,
    {
        r.push(String::from_str(parts[i]));
        i = i + 1;
    }
    assert(strs(r@) =~= strs_of(parts@));
    r
}

/// A copy of a list of strings.
pub fn clone_strings(v: &Vec<String>) -> (r: Vec<String>)
    ensures
        strs(r@) == strs(v@),
{
    let mut r: Vec<String> = Vec::new();
    let mut i: usize = 0;
    while i < v.len()
        invariant
            i <= v@.len(),
            r@.len() == i,
            forall|k: int| 0 <= k < i ==> #[trigger] r@[k]@ == v@[k]@,
        decreases v@.len() - i,
    {
        r.push(v[i].clone());
        i = i + 1;
    }
    assert(strs(r@) =~= strs(v@));
    r
}

/// The appliance's package names.
pub fn services() -> (r: Vec<String>)
    ensures
        strs(r@) == services_spec(),
{
    strings(&SERVICES)
}

} // verus!
