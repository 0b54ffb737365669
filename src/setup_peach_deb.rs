use vstd::prelude::*;

use crate::script::{copy_conf, copy_conf_spec, run, run_spec, steps_view, Step, StepView};

verus! {

/// The steps that add apt.peachcloud.org to the apt sources, with its
/// signing key.
pub open spec fn peach_deb_plan() -> Seq<StepView> {
    seq![
        copy_conf_spec("peach.list"@, "/etc/apt/sources.list.d/peach.list"@),
        run_spec(seq!["wget", "-O", "/tmp/pubkey.gpg", "http://apt.peachcloud.org/pubkey.gpg"]),
        run_spec(seq!["apt-key", "add", "/tmp/pubkey.gpg"]),
        run_spec(seq!["rm", "/tmp/pubkey.gpg"]),
    ]
}

/// Adds apt.peachcloud.org to the list of apt sources and installs its
/// public key.
pub fn setup_peach_deb() -> (r: Vec<Step>)
    ensures
        steps_view(r@) == peach_deb_plan(),
{
    let r = vec![
        copy_conf("peach.list", "/etc/apt/sources.list.d/peach.list"),
        run(&["wget", "-O", "/tmp/pubkey.gpg", "http://apt.peachcloud.org/pubkey.gpg"]),
        run(&["apt-key", "add", "/tmp/pubkey.gpg"]),
        run(&["rm", "/tmp/pubkey.gpg"]),
    ];
    assert(steps_view(r@) =~~= peach_deb_plan());
    r
}

} // verus!
