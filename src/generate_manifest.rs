use vstd::prelude::*;

use crate::error::{ErrorView, PeachConfigError};
use crate::script::{Step, StepView};

verus! {

/// Supported models of real-time clock.
#[derive(Clone, Copy, PartialEq, Eq, Structural, Debug)]
pub enum RtcOption {
    DS1307,
    DS3231,
}

/// The hardware options that a successful setup configured.
#[derive(Clone, Copy, PartialEq, Eq, Structural, Debug)]
pub struct HardwareConfig {
    pub i2c: bool,
    pub rtc: Option<RtcOption>,
}

} // verus!

verus! {

/// The step that records, once setup has succeeded, which hardware options
/// it configured.
pub fn save_hardware_config(i2c: bool, rtc: Option<RtcOption>) -> (r: Step)
    ensures
        r@ == (StepView::SaveHardwareConfig { config: HardwareConfig { i2c, rtc } }),
{
    Step::SaveHardwareConfig { config: HardwareConfig { i2c, rtc } }
}

} // verus!

verus! {

/// Matches a line of a `dpkg -l` listing whose package name contains
/// "peach": the first group is the name, the second the version.
pub const PACKAGE_PATTERN: &'static str = r"\S+\s+(\S*peach\S+)\s+(\S+).*\n";

/// The views of two optional capture groups.
pub type GroupsView = (Option<Seq<char>>, Option<Seq<char>>);

/// What the `regex` crate finds for `pattern` in `text`: groups 1 and 2 of
/// each successive non-overlapping match, or nothing when `pattern` does not
/// compile.
pub uninterp spec fn regex_capture_pairs(pattern: Seq<char>, text: Seq<char>) -> Option<
    Seq<GroupsView>,
>;

/// The view of an optional string.
pub open spec fn opt_str(o: Option<String>) -> Option<Seq<char>> {
    match o {
        Some(s) => Some(s@),
        None => None,
    }
}

/// The view of two optional capture groups.
pub open spec fn groups_view(p: (Option<String>, Option<String>)) -> GroupsView {
    (opt_str(p.0), opt_str(p.1))
}

/// The views of name and version pairs.
pub open spec fn entries_view(s: Seq<(String, String)>) -> Seq<(Seq<char>, Seq<char>)> {
    s.map_values(|p: (String, String)| (p.0@, p.1@))
}

/// The map that a list of name and version pairs stands for; a later pair
/// overrides an earlier one with the same name.
pub open spec fn pairs_map(s: Seq<(Seq<char>, Seq<char>)>) -> Map<Seq<char>, Seq<char>>
    decreases s.len(),
{
    if s.len() == 0 {
        Map::empty()
    } else {
        pairs_map(s.drop_last()).insert(s.last().0, s.last().1)
    }
}

/// No two pairs share a name.
pub open spec fn unique_names(s: Seq<(Seq<char>, Seq<char>)>) -> bool {
    forall|i: int, j: int| 0 <= i < j < s.len() ==> #[trigger] s[i].0 != #[trigger] s[j].0
}

/// The package versions that a list of matches gives: each match with both
/// groups maps its name to its version, and a later match of a name wins.
pub open spec fn versions_of(caps: Seq<GroupsView>) -> Map<Seq<char>, Seq<char>>
    decreases caps.len(),
{
    if caps.len() == 0 {
        Map::empty()
    } else {
        let m = versions_of(caps.drop_last());
        match caps.last() {
            (Some(name), Some(version)) => m.insert(name, version),
            _ => m,
        }
    }
}

/// Relies on regex::Regex::new, which compiles `pattern` or fails, and on
/// regex::Regex::captures_iter, which yields the successive non-overlapping
/// matches in `text`; of each, groups 1 and 2 are kept.
#[verifier::external_body]
fn capture_pairs(pattern: &str, text: &str) -> (r: Option<Vec<(Option<String>, Option<String>)>>)
    ensures
        match r {
            Some(v) => regex_capture_pairs(pattern@, text@) == Some(
                v@.map_values(|p: (Option<String>, Option<String>)| groups_view(p)),
            ),
            None => regex_capture_pairs(pattern@, text@) is None,
        },
{
    match regex::Regex::new(pattern) {
        Ok(re) => Some(
            re.captures_iter(text).map(
                |c| (c.get(1).map(|m| m.as_str().to_string()), c.get(2).map(|m| m.as_str().to_string())),
            ).collect(),
        ),
        Err(_) => None,
    }
}

/// Updating the pair of a name that occurs once is inserting into the map.
proof fn lemma_pairs_map_update(s: Seq<(Seq<char>, Seq<char>)>, j: int, v: Seq<char>)
    requires
        0 <= j < s.len(),
        unique_names(s),
    ensures
        pairs_map(s.update(j, (s[j].0, v))) == pairs_map(s).insert(s[j].0, v),
    decreases s.len(),
{
    let t = s.update(j, (s[j].0, v));
    if j == s.len() - 1 {
        assert(t.drop_last() =~= s.drop_last());
        assert(pairs_map(t) =~= pairs_map(s).insert(s[j].0, v));
    } else {
        assert(t.drop_last() =~= s.drop_last().update(j, (s[j].0, v)));
        lemma_pairs_map_update(s.drop_last(), j, v);
        assert(s.last().0 != s[j].0);
        assert(pairs_map(t) =~= pairs_map(s).insert(s[j].0, v));
    }
}

/// Sets `name` to `version` in a list of pairs with distinct names.
fn set_version(entries: &mut Vec<(String, String)>, name: String, version: String)
    requires
        unique_names(entries_view(old(entries)@)),
    ensures
        unique_names(entries_view(final(entries)@)),
        pairs_map(entries_view(final(entries)@)) == pairs_map(entries_view(old(entries)@)).insert(
            name@,
            version@,
        ),
{
    let mut j: usize = 0;
    while j < entries.len()
        invariant
            j <= entries@.len(),
            entries@ == old(entries)@,
            unique_names(entries_view(entries@)),
            forall|k: int| 0 <= k < j ==> #[trigger] entries@[k].0@ != name@,
        decreases entries@.len() - j,
    {
        if entries[j].0 == name {
            let ghost before = entries_view(entries@);
            proof {
                lemma_pairs_map_update(before, j as int, version@);
            }
            entries.set(j, (name, version));
            assert(entries_view(entries@) =~= before.update(j as int, (before[j as int].0, version@)));
            return;
        }
        j = j + 1;
    }
    let ghost before = entries_view(entries@);
    entries.push((name, version));
    assert(entries_view(entries@).drop_last() =~= before);
    let ghost after = entries_view(entries@);
    assert forall|a: int, b: int| 0 <= a < b < after.len() implies #[trigger] after[a].0
        != #[trigger] after[b].0 by {
        if b == after.len() - 1 {
            assert(entries@[a].0@ != name@);
        } else {
            assert(before[a].0 != before[b].0);
        }
    }
}

/// The package versions that the matches `caps` give, as pairs with
/// distinct names.
pub fn package_versions(caps: &Vec<(Option<String>, Option<String>)>) -> (r: Vec<(String, String)>)
    ensures
        unique_names(entries_view(r@)),
        pairs_map(entries_view(r@)) == versions_of(
            caps@.map_values(|p: (Option<String>, Option<String>)| groups_view(p)),
        ),
{
    let ghost caps_view = caps@.map_values(|p: (Option<String>, Option<String>)| groups_view(p));
    let mut r: Vec<(String, String)> = Vec::new();
    let mut i: usize = 0;
    assert(caps_view.subrange(0, 0) =~= Seq::<GroupsView>::empty());
    assert(pairs_map(entries_view(r@)) =~= Map::empty());
    while i < caps.len()
        invariant
            i <= caps@.len(),
            caps_view == caps@.map_values(|p: (Option<String>, Option<String>)| groups_view(p)),
            unique_names(entries_view(r@)),
            pairs_map(entries_view(r@)) == versions_of(caps_view.subrange(0, i as int)),
        decreases caps@.len() - i,
    {
        let ghost done = caps_view.subrange(0, i + 1);
        assert(done.drop_last() =~= caps_view.subrange(0, i as int));
        assert(done.last() == groups_view(caps@[i as int]));
        match &caps[i] {
            (Some(name), Some(version)) => {
                set_version(&mut r, name.clone(), version.clone());
            },
            _ => {},
        }
        i = i + 1;
    }
    assert(caps_view.subrange(0, i as int) =~= caps_view);
    r
}

/// The peach packages of a `dpkg -l` listing, each with its version, e.g.
/// `peach-probe` with `1.2.0`.
pub fn get_currently_installed_microservices(listing: &str) -> (r: Result<
    Vec<(String, String)>,
    PeachConfigError,
>)
    ensures
        match regex_capture_pairs(PACKAGE_PATTERN@, listing@) {
            Some(caps) => r matches Ok(v) && unique_names(entries_view(v@)) && pairs_map(
                entries_view(v@),
            ) == versions_of(caps),
            None => r matches Err(e) && e@ == (ErrorView::PatternError {
                pattern: PACKAGE_PATTERN@,
            }),
        },
{
    match capture_pairs(PACKAGE_PATTERN, listing) {
        Some(caps) => Ok(package_versions(&caps)),
        None => Err(PeachConfigError::PatternError { pattern: String::from_str(PACKAGE_PATTERN) }),
    }
}

/// What the manifest command prints: the installed peach packages with their
/// versions, and the hardware options of the last successful setup.
#[derive(Debug)]
pub struct Manifest {
    pub packages: Vec<(String, String)>,
    pub hardware: Option<HardwareConfig>,
}

/// Puts together the manifest from a `dpkg -l` listing and the recorded
/// hardware options.
pub fn generate_manifest(listing: &str, hardware: Option<HardwareConfig>) -> (r: Result<
    Manifest,
    PeachConfigError,
>)
    ensures
        match regex_capture_pairs(PACKAGE_PATTERN@, listing@) {
            Some(caps) => r matches Ok(m) && m.hardware == hardware && unique_names(
                entries_view(m.packages@),
            ) && pairs_map(entries_view(m.packages@)) == versions_of(caps),
            None => r matches Err(e) && e@ == (ErrorView::PatternError {
                pattern: PACKAGE_PATTERN@,
            }),
        },
{
    match get_currently_installed_microservices(listing) {
        Ok(packages) => Ok(Manifest { packages, hardware }),
        Err(e) => Err(e),
    }
}

} // verus!
