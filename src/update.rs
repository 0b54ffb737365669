use vstd::prelude::*;

use crate::constants::{services, services_spec, strings, strs, strs_of, SELF_PACKAGE};
use crate::script::{run, run_spec, steps_view, Step, StepView};
use crate::text::{lines_mentioning, lines_mentioning_spec};

verus! {

/// Options of the update command.
#[derive(Debug)]
pub struct UpdateOpts {
    /// Only update the other microservices, not this tool.
    pub microservices: bool,
    /// Only update this tool, not the other microservices.
    pub self_only: bool,
    /// Only list the microservices that can be upgraded.
    pub list: bool,
}

/// The lines of the upgrade listing that concern the appliance's packages.
#[derive(Debug)]
pub struct ListAvailableUpdatesOutput {
    pub upgradeable: Vec<String>,
}

/// `names` without `own`, in their order.
pub open spec fn without(names: Seq<Seq<char>>, own: Seq<char>) -> Seq<Seq<char>> {
    names.filter(|n: Seq<char>| n != own)
}

/// The appliance's packages that are updated as a batch: all but this tool.
pub open spec fn microservices_spec() -> Seq<Seq<char>> {
    without(services_spec(), SELF_PACKAGE@)
}

/// The steps that update this tool.
pub open spec fn update_self_plan() -> Seq<StepView> {
    seq![
        run_spec(seq!["apt-get", "update"]),
        run_spec(seq!["apt-get", "install", "-y", "peach-config"]),
    ]
}

/// The steps that install or upgrade every microservice: one refresh of the
/// package index, then one install request for all of them.
pub open spec fn update_microservices_plan() -> Seq<StepView> {
    seq![
        run_spec(seq!["apt-get", "update"]),
        StepView::Run { argv: strs_of(seq!["apt-get", "install", "-y"]) + microservices_spec() },
    ]
}

/// The steps that report which microservices can be upgraded.
pub open spec fn list_updates_plan() -> Seq<StepView> {
    seq![
        run_spec(seq!["apt-get", "update"]),
        StepView::Capture { argv: strs_of(seq!["apt", "list", "--upgradable"]) },
        StepView::ReportUpgradeable { names: services_spec() },
    ]
}

/// The steps of the update command for the options `o`.
pub open spec fn update_plan(o: UpdateOpts) -> Seq<StepView> {
    if o.self_only {
        update_self_plan()
    } else if o.microservices {
        update_microservices_plan()
    } else if o.list {
        list_updates_plan()
    } else {
        update_self_plan() + seq![
            run_spec(seq!["/usr/bin/peach-config", "update", "--microservices"]),
        ]
    }
}

/// The lines of an `apt list --upgradable` listing that mention one of the
/// appliance's packages.
pub open spec fn available_updates_spec(listing: Seq<char>) -> Seq<Seq<char>> {
    lines_mentioning_spec(listing, services_spec())
}

/// `names` without `own`, in their order.
pub fn services_except(names: &Vec<String>, own: &str) -> (r: Vec<String>)
    ensures
        strs(r@) == without(strs(names@), own@),
{
    let own = String::from_str(own);
    let mut r: Vec<String> = Vec::new();
    let mut i: usize = 0;
    let ghost pred = |n: Seq<char>| n != own@;
    assert(strs(names@).subrange(0, 0) =~= Seq::<Seq<char>>::empty());
    reveal(Seq::filter);
    while i < names.len()
        invariant
            i <= names@.len(),
            pred == (|n: Seq<char>| n != own@),
            strs(r@) == strs(names@).subrange(0, i as int).filter(pred),
        decreases names@.len() - i,
    {
        reveal(Seq::filter);
        let ghost done = strs(names@).subrange(0, i + 1);
        assert(done.drop_last() =~= strs(names@).subrange(0, i as int));
        assert(done.last() == names@[i as int]@);
        if names[i] != own {
            r.push(names[i].clone());
        }
        assert(strs(r@) =~= done.filter(pred));
        i = i + 1;
    }
    assert(strs(names@).subrange(0, i as int) =~= strs(names@));
    r
}

/// Updates this tool through apt-get.
pub fn run_update_self() -> (r: Vec<Step>)
    ensures
        steps_view(r@) == update_self_plan(),
{
    let r = vec![run(&["apt-get", "update"]), run(&["apt-get", "install", "-y", "peach-config"])];
    assert(steps_view(r@) =~~= update_self_plan());
    r
}

/// Installs every microservice but this tool, or upgrades it to its latest
/// version.
pub fn update_microservices() -> (r: Vec<Step>)
    ensures
        steps_view(r@) == update_microservices_plan(),
{
    let mut argv = strings(&["apt-get", "install", "-y"]);
    let mut rest = services_except(&services(), SELF_PACKAGE);
    let ghost head = argv@;
    argv.append(&mut rest);
    assert(strs(argv@) =~= strs(head) + microservices_spec());
    let r = vec![run(&["apt-get", "update"]), Step::Run { argv }];
    assert(steps_view(r@) =~~= update_microservices_plan());
    r
}

/// The steps that list the microservices for which an upgrade is available.
pub fn list_updates() -> (r: Vec<Step>)
    ensures
        steps_view(r@) == list_updates_plan(),
{
    let r = vec![
        run(&["apt-get", "update"]),
        Step::Capture { argv: strings(&["apt", "list", "--upgradable"]) },
        Step::ReportUpgradeable { names: services() },
    ];
    assert(steps_view(r@) =~~= list_updates_plan());
    r
}

/// Picks the update steps for the options: this tool only, the
/// microservices only, the listing only, or else this tool first and then a
/// fresh run of it that updates the microservices.
pub fn update(opts: UpdateOpts) -> (r: Vec<Step>)
    ensures
        steps_view(r@) == update_plan(opts),
{
    if opts.self_only {
        run_update_self()
    } else if opts.microservices {
        update_microservices()
    } else if opts.list {
        list_updates()
    } else {
        let mut r = run_update_self();
        r.push(run(&["/usr/bin/peach-config", "update", "--microservices"]));
        assert(steps_view(r@) =~= update_plan(opts));
        r
    }
}

/// Keeps the lines of an `apt list --upgradable` listing that mention one of
/// the appliance's packages.
pub fn list_available_updates(listing: &str) -> (r: ListAvailableUpdatesOutput)
    ensures
        strs(r.upgradeable@) == available_updates_spec(listing@),
{
    let names = services();
    ListAvailableUpdatesOutput { upgradeable: lines_mentioning(listing, &names) }
}

/// Updating the microservices asks for exactly the appliance's packages
/// other than this tool: a name is in the install request of
/// [`update_microservices`] if and only if it is one of the packages and is
/// not this tool's own.
pub proof fn lemma_update_all_but_self(name: Seq<char>)
    ensures
        update_microservices_plan()[1] == (StepView::Run {
            argv: strs_of(seq!["apt-get", "install", "-y"]) + microservices_spec(),
        }),
        microservices_spec().contains(name) <==> (services_spec().contains(name) && name
            != SELF_PACKAGE@),
{
    let pred = |n: Seq<char>| n != SELF_PACKAGE@;
    if microservices_spec().contains(name) {
        services_spec().lemma_filter_contains_rev(pred, name);
        let i = choose|i: int| 0 <= i < microservices_spec().len() && microservices_spec()[i] == name;
        services_spec().lemma_filter_pred(pred, i);
    }
    if services_spec().contains(name) && name != SELF_PACKAGE@ {
        let i = choose|i: int| 0 <= i < services_spec().len() && services_spec()[i] == name;
        services_spec().lemma_filter_contains(pred, i);
    }
}

} // verus!
