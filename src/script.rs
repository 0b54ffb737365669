//! Provisioning scripts: fixed lists of steps, walked through one action at
//! a time.
//!
//! A [`Session`] says what to do next ([`Session::next_action`]); the caller
//! does it and reports back what happened ([`Session::advance`]). The first
//! step that fails ends the session: every later step is left undone.
use vstd::prelude::*;

use crate::constants::{clone_strings, strings, strs, strs_of};
use crate::error::{opt_error_view, ErrorView, PeachConfigError};
use crate::generate_manifest::HardwareConfig;
use crate::text::{lines_mentioning, lines_mentioning_spec};
use crate::utils::{
    cmd, cmd_spec, conf, conf_spec, get_output, get_output_spec, probe, probe_spec, CommandOutcome,
    OutcomeView,
};

verus! {

/// One step of a provisioning script.
#[derive(Debug)]
pub enum Step {
    /// Run a command, which must succeed.
    Run { argv: Vec<String> },
    /// Run a query command; when it reports that the entry exists, skip the
    /// next `skip` steps.
    SkipIfFound { query: Vec<String>, skip: usize },
    /// When `path` exists, skip the next `skip` steps.
    SkipIfPathExists { path: String, skip: usize },
    /// Run a command, which must succeed, and keep what it printed.
    Capture { argv: Vec<String> },
    /// Run `head`, then the text last kept by [`Step::Capture`], then `tail`.
    RunWithCaptured { head: Vec<String>, tail: Vec<String> },
    /// Write `contents` to the file `path`.
    WriteFile { path: String, contents: String },
    /// Record the hardware options of this setup.
    SaveHardwareConfig { config: HardwareConfig },
    /// Report the lines of the kept text that mention one of `names`.
    ReportUpgradeable { names: Vec<String> },
}

/// The mathematical value of a [`Step`].
pub enum StepView {
    Run { argv: Seq<Seq<char>> },
    SkipIfFound { query: Seq<Seq<char>>, skip: nat },
    SkipIfPathExists { path: Seq<char>, skip: nat },
    Capture { argv: Seq<Seq<char>> },
    RunWithCaptured { head: Seq<Seq<char>>, tail: Seq<Seq<char>> },
    WriteFile { path: Seq<char>, contents: Seq<char> },
    SaveHardwareConfig { config: HardwareConfig },
    ReportUpgradeable { names: Seq<Seq<char>> },
}

impl View for Step {
    type V = StepView;

    open spec fn view(&self) -> StepView {
        match self {
            Step::Run { argv } => StepView::Run { argv: strs(argv@) },
            Step::SkipIfFound { query, skip } => StepView::SkipIfFound {
                query: strs(query@),
                skip: *skip as nat,
            },
            Step::SkipIfPathExists { path, skip } => StepView::SkipIfPathExists {
                path: path@,
                skip: *skip as nat,
            },
            Step::Capture { argv } => StepView::Capture { argv: strs(argv@) },
            Step::RunWithCaptured { head, tail } => StepView::RunWithCaptured {
                head: strs(head@),
                tail: strs(tail@),
            },
            Step::WriteFile { path, contents } => StepView::WriteFile {
                path: path@,
                contents: contents@,
            },
            Step::SaveHardwareConfig { config } => StepView::SaveHardwareConfig { config: *config },
            Step::ReportUpgradeable { names } => StepView::ReportUpgradeable { names: strs(names@) },
        }
    }
}

/// The views of a list of steps.
pub open spec fn steps_view(v: Seq<Step>) -> Seq<StepView> {
    v.map_values(|s: Step| s@)
}

/// What the caller is asked to do next.
#[derive(Debug)]
pub enum Action {
    /// Run the command and report [`Event::Ran`].
    Run { argv: Vec<String> },
    /// Look whether `path` exists and report [`Event::PathChecked`].
    CheckPath { path: String },
    /// Write the file and report [`Event::Completed`].
    WriteFile { path: String, contents: String },
    /// Record the hardware options and report [`Event::Completed`].
    SaveHardwareConfig { config: HardwareConfig },
    /// Print these upgradeable package lines and report [`Event::Completed`].
    Report { upgradeable: Vec<String> },
    /// The session is over: with no error when every step succeeded.
    Finish { error: Option<PeachConfigError> },
}

/// The mathematical value of an [`Action`].
pub enum ActionView {
    Run { argv: Seq<Seq<char>> },
    CheckPath { path: Seq<char> },
    WriteFile { path: Seq<char>, contents: Seq<char> },
    SaveHardwareConfig { config: HardwareConfig },
    Report { upgradeable: Seq<Seq<char>> },
    Finish { error: Option<ErrorView> },
}

impl View for Action {
    type V = ActionView;

    open spec fn view(&self) -> ActionView {
        match self {
            Action::Run { argv } => ActionView::Run { argv: strs(argv@) },
            Action::CheckPath { path } => ActionView::CheckPath { path: path@ },
            Action::WriteFile { path, contents } => ActionView::WriteFile {
                path: path@,
                contents: contents@,
            },
            Action::SaveHardwareConfig { config } => ActionView::SaveHardwareConfig {
                config: *config,
            },
            Action::Report { upgradeable } => ActionView::Report { upgradeable: strs(upgradeable@) },
            Action::Finish { error } => ActionView::Finish { error: opt_error_view(*error) },
        }
    }
}

/// What the caller reports after doing an action.
#[derive(Debug)]
pub enum Event {
    /// The command of an [`Action::Run`] came back with this outcome.
    Ran { outcome: CommandOutcome },
    /// Whether the path of an [`Action::CheckPath`] exists.
    PathChecked { exists: bool },
    /// A write or a report is done, or failed with `error`.
    Completed { error: Option<PeachConfigError> },
}

/// The mathematical value of an [`Event`].
pub enum EventView {
    Ran { outcome: OutcomeView },
    PathChecked { exists: bool },
    Completed { error: Option<ErrorView> },
}

impl View for Event {
    type V = EventView;

    open spec fn view(&self) -> EventView {
        match self {
            Event::Ran { outcome } => EventView::Ran { outcome: outcome@ },
            Event::PathChecked { exists } => EventView::PathChecked { exists: *exists },
            Event::Completed { error } => EventView::Completed { error: opt_error_view(*error) },
        }
    }
}

/// A script being carried out.
pub struct Session {
    steps: Vec<Step>,
    pos: usize,
    captured: String,
    failure: Option<PeachConfigError>,
}

/// The mathematical value of a [`Session`]: the script, the position of the
/// next step, the text last kept, and the error that ended it, if any.
pub struct SessionView {
    pub steps: Seq<StepView>,
    pub pos: nat,
    pub captured: Seq<char>,
    pub failure: Option<ErrorView>,
}

impl View for Session {
    type V = SessionView;

    closed spec fn view(&self) -> SessionView {
        SessionView {
            steps: steps_view(self.steps@),
            pos: self.pos as nat,
            captured: self.captured@,
            failure: opt_error_view(self.failure),
        }
    }
}

/// The session on `steps` before anything was done.
pub open spec fn start_of(steps: Seq<StepView>) -> SessionView {
    SessionView { steps, pos: 0, captured: Seq::empty(), failure: None }
}

/// The session is over: a step failed, or every step is done.
pub open spec fn is_over(s: SessionView) -> bool {
    s.failure is Some || s.pos >= s.steps.len()
}

/// The session `k` steps further on, but never past the end of the script.
pub open spec fn moved(s: SessionView, k: nat) -> SessionView {
    SessionView {
        pos: if s.pos + k <= s.steps.len() {
            s.pos + k
        } else {
            s.steps.len()
        },
        ..s
    }
}

/// The session ended by `e`.
pub open spec fn failed(s: SessionView, e: ErrorView) -> SessionView {
    SessionView { failure: Some(e), ..s }
}

/// What the caller is asked to do in session `s`.
pub open spec fn action_of(s: SessionView) -> ActionView {
    if s.failure is Some {
        ActionView::Finish { error: s.failure }
    } else if s.pos >= s.steps.len() {
        ActionView::Finish { error: None }
    } else {
        match s.steps[s.pos as int] {
            StepView::Run { argv } => ActionView::Run { argv },
            StepView::SkipIfFound { query, .. } => ActionView::Run { argv: query },
            StepView::SkipIfPathExists { path, .. } => ActionView::CheckPath { path },
            StepView::Capture { argv } => ActionView::Run { argv },
            StepView::RunWithCaptured { head, tail } => ActionView::Run {
                argv: head + seq![s.captured] + tail,
            },
            StepView::WriteFile { path, contents } => ActionView::WriteFile { path, contents },
            StepView::SaveHardwareConfig { config } => ActionView::SaveHardwareConfig { config },
            StepView::ReportUpgradeable { names } => ActionView::Report {
                upgradeable: lines_mentioning_spec(s.captured, names),
            },
        }
    }
}

/// The session after the caller reported `ev` in session `s`. An event that
/// does not answer the current action leaves the session as it was.
pub open spec fn advance_of(s: SessionView, ev: EventView) -> SessionView {
    if is_over(s) {
        s
    } else {
        match s.steps[s.pos as int] {
            StepView::Run { argv } => match ev {
                EventView::Ran { outcome } => match cmd_spec(argv, outcome) {
                    Ok(_) => moved(s, 1),
                    Err(e) => failed(s, e),
                },
                _ => s,
            },
            StepView::SkipIfFound { query, skip } => match ev {
                EventView::Ran { outcome } => match probe_spec(query, outcome) {
                    Ok(found) => if found {
                        moved(s, 1 + skip)
                    } else {
                        moved(s, 1)
                    },
                    Err(e) => failed(s, e),
                },
                _ => s,
            },
            StepView::SkipIfPathExists { skip, .. } => match ev {
                EventView::PathChecked { exists } => if exists {
                    moved(s, 1 + skip)
                } else {
                    moved(s, 1)
                },
                _ => s,
            },
            StepView::Capture { argv } => match ev {
                EventView::Ran { outcome } => match get_output_spec(argv, outcome) {
                    Ok(text) => SessionView { captured: text, ..moved(s, 1) },
                    Err(e) => failed(s, e),
                },
                _ => s,
            },
            StepView::RunWithCaptured { head, tail } => match ev {
                EventView::Ran { outcome } => match cmd_spec(
                    head + seq![s.captured] + tail,
                    outcome,
                ) {
                    Ok(_) => moved(s, 1),
                    Err(e) => failed(s, e),
                },
                _ => s,
            },
            _ => match ev {
                EventView::Completed { error } => match error {
                    None => moved(s, 1),
                    Some(e) => failed(s, e),
                },
                _ => s,
            },
        }
    }
}

/// The session after the events `evs` were reported one after another.
pub open spec fn after(s: SessionView, evs: Seq<EventView>) -> SessionView
    decreases evs.len(),
{
    if evs.len() == 0 {
        s
    } else {
        after(advance_of(s, evs[0]), evs.drop_first())
    }
}

/// What is left to do once the session has moved on.
enum Decision {
    Move(usize),
    Keep(String, usize),
    Fail(PeachConfigError),
    Stay,
}

impl Session {
    /// Well-formed: the position lies within the script.
    pub open spec fn wf(&self) -> bool {
        self@.pos <= self@.steps.len()
    }

    /// A session at the start of `steps`.
    pub fn new(steps: Vec<Step>) -> (r: Session)
        ensures
            r@ == start_of(steps_view(steps@)),
            r.wf(),
    {
        Session { steps, pos: 0, captured: String::new(), failure: None }
    }

    /// What the caller is to do next.
    pub fn next_action(&self) -> (r: Action)
        ensures
            r@ == action_of(self@),
    {
        if let Some(e) = &self.failure {
            return Action::Finish { error: Some(e.duplicate()) };
        }
        if self.pos >= self.steps.len() {
            return Action::Finish { error: None };
        }
        match &self.steps[self.pos] {
            Step::Run { argv } => Action::Run { argv: clone_strings(argv) },
            Step::SkipIfFound { query, .. } => Action::Run { argv: clone_strings(query) },
            Step::SkipIfPathExists { path, .. } => Action::CheckPath { path: path.clone() },
            Step::Capture { argv } => Action::Run { argv: clone_strings(argv) },
            Step::RunWithCaptured { head, tail } => {
                let argv = joined(head, &self.captured, tail);
                Action::Run { argv }
            },
            Step::WriteFile { path, contents } => Action::WriteFile {
                path: path.clone(),
                contents: contents.clone(),
            },
            Step::SaveHardwareConfig { config } => Action::SaveHardwareConfig { config: *config },
            Step::ReportUpgradeable { names } => Action::Report {
                upgradeable: lines_mentioning(self.captured.as_str(), names),
            },
        }
    }

    /// Takes in what happened when the current action was done.
    pub fn advance(&mut self, event: Event)
        requires
            old(self).wf(),
        ensures
            final(self)@ == advance_of(old(self)@, event@),
            final(self).wf(),
    {
        if self.failure.is_some() || self.pos >= self.steps.len() {
            return;
        }
        let len = self.steps.len();
        let decision = match &self.steps[self.pos] {
            Step::Run { argv } => match event {
                Event::Ran { outcome } => match cmd(argv, outcome) {
                    Ok(_) => Decision::Move(1),
                    Err(e) => Decision::Fail(e),
                },
                _ => Decision::Stay,
            },
            Step::SkipIfFound { query, skip } => match event {
                Event::Ran { outcome } => match probe(query, outcome) {
                    Ok(found) => if found {
                        if *skip < len {
                            Decision::Move(1 + *skip)
                        } else {
                            Decision::Move(len)
                        }
                    } else {
                        Decision::Move(1)
                    },
                    Err(e) => Decision::Fail(e),
                },
                _ => Decision::Stay,
            },
            Step::SkipIfPathExists { skip, .. } => match event {
                Event::PathChecked { exists } => if exists {
                    if *skip < len {
                        Decision::Move(1 + *skip)
                    } else {
                        Decision::Move(len)
                    }
                } else {
                    Decision::Move(1)
                },
                _ => Decision::Stay,
            },
            Step::Capture { argv } => match event {
                Event::Ran { outcome } => match get_output(argv, outcome) {
                    Ok(text) => Decision::Keep(text, 1),
                    Err(e) => Decision::Fail(e),
                },
                _ => Decision::Stay,
            },
            Step::RunWithCaptured { head, tail } => match event {
                Event::Ran { outcome } => {
                    let argv = joined(head, &self.captured, tail);
                    match cmd(&argv, outcome) {
                        Ok(_) => Decision::Move(1),
                        Err(e) => Decision::Fail(e),
                    }
                },
                _ => Decision::Stay,
            },
            _ => match event {
                Event::Completed { error } => match error {
                    None => Decision::Move(1),
                    Some(e) => Decision::Fail(e),
                },
                _ => Decision::Stay,
            },
        };
        match decision {
            Decision::Move(k) => {
                self.pos = if k <= len - self.pos {
                    self.pos + k
                } else {
                    len
                };
            },
            Decision::Keep(text, k) => {
                self.pos = if k <= len - self.pos {
                    self.pos + k
                } else {
                    len
                };
                self.captured = text;
            },
            Decision::Fail(e) => {
                self.failure = Some(e);
            },
            Decision::Stay => {},
        }
    }
}

/// `head`, then `middle`, then `tail`, as one argument vector.
fn joined(head: &Vec<String>, middle: &String, tail: &Vec<String>) -> (r: Vec<String>)
    ensures
        strs(r@) == strs(head@) + seq![middle@] + strs(tail@),
{
    let mut r = clone_strings(head);
    r.push(middle.clone());
    let mut rest = clone_strings(tail);
    let ghost before = r@;
    r.append(&mut rest);
    assert(strs(r@) =~= strs(head@) + seq![middle@] + strs(tail@));
    r
}

} // verus!

verus! {

/// The step that runs the command made of `parts`.
pub open spec fn run_spec(parts: Seq<&str>) -> StepView {
    StepView::Run { argv: strs_of(parts) }
}

/// The step that copies the configuration file `name` to `dest`.
pub open spec fn copy_conf_spec(name: Seq<char>, dest: Seq<char>) -> StepView {
    StepView::Run { argv: seq!["cp"@, conf_spec(name), dest] }
}

/// The step that runs the command made of `parts`.
pub fn run(parts: &[&str]) -> (r: Step)
    ensures
        r@ == run_spec(parts@),
{
    Step::Run { argv: strings(parts) }
}

/// The step that copies the configuration file `name` to `dest`.
pub fn copy_conf(name: &str, dest: &str) -> (r: Step)
    ensures
        r@ == copy_conf_spec(name@, dest@),
{
    let source = conf(name);
    let argv = strings(&["cp", source.as_str(), dest]);
    assert(strs(argv@) =~= seq!["cp"@, conf_spec(name@), dest@]);
    Step::Run { argv }
}

/// Once a step has failed, nothing that the caller reports changes the
/// session, and all it asks is to finish with that error.
pub proof fn lemma_failure_is_final(s: SessionView, evs: Seq<EventView>)
    requires
        s.failure is Some,
    ensures
        after(s, evs) == s,
        action_of(after(s, evs)) == (ActionView::Finish { error: s.failure }),
    decreases evs.len(),
{
    if evs.len() > 0 {
        lemma_failure_is_final(advance_of(s, evs[0]), evs.drop_first());
    }
}

/// A command that fails ends the session at its step: whatever is reported
/// afterwards, no later step is asked for, and the session finishes with the
/// command's error.
pub proof fn lemma_failed_command_stops(s: SessionView, outcome: OutcomeView, evs: Seq<EventView>)
    requires
        !is_over(s),
        s.steps[s.pos as int] is Run,
        cmd_spec(s.steps[s.pos as int]->Run_argv, outcome) is Err,
    ensures
        after(advance_of(s, EventView::Ran { outcome }), evs).pos == s.pos,
        action_of(after(advance_of(s, EventView::Ran { outcome }), evs)) == (ActionView::Finish {
            error: Some(cmd_spec(s.steps[s.pos as int]->Run_argv, outcome)->Err_0),
        }),
{
    lemma_failure_is_final(advance_of(s, EventView::Ran { outcome }), evs);
}

} // verus!

verus! {

/// Appends the steps `more` to `r`.
pub fn extend_steps(r: &mut Vec<Step>, more: Vec<Step>)
    ensures
        steps_view(final(r)@) == steps_view(old(r)@) + steps_view(more@),
{
    let ghost before = r@;
    let ghost added = more@;
    let mut more = more;
    r.append(&mut more);
    assert(steps_view(r@) =~= steps_view(before) + steps_view(added));
}

} // verus!
