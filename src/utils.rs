use vstd::prelude::*;
use vstd::utf8::{decode_utf8, valid_utf8};

use crate::constants::{clone_strings, strings, strs, strs_of, CONF};
use crate::error::{ErrorView, PeachConfigError};
use crate::script::{
    action_of, advance_of, is_over, start_of, steps_view, ActionView, EventView, SessionView, Step,
    StepView,
};

verus! {

/// What happened when a program was started: either it could not be
/// launched, or it ran to the end with the given status and output.
#[derive(Debug)]
pub enum CommandOutcome {
    NotLaunched { reason: String },
    Exited { success: bool, stdout: Vec<u8>, stderr: Vec<u8> },
}

/// The mathematical value of a [`CommandOutcome`].
pub enum OutcomeView {
    NotLaunched { reason: Seq<char> },
    Exited { success: bool, stdout: Seq<u8>, stderr: Seq<u8> },
}

impl View for CommandOutcome {
    type V = OutcomeView;

    open spec fn view(&self) -> OutcomeView {
        match self {
            CommandOutcome::NotLaunched { reason } => OutcomeView::NotLaunched { reason: reason@ },
            CommandOutcome::Exited { success, stdout, stderr } => OutcomeView::Exited {
                success: *success,
                stdout: stdout@,
                stderr: stderr@,
            },
        }
    }
}

/// The captured output of a program that exited successfully.
#[derive(Debug)]
pub struct CommandOutput {
    pub stdout: Vec<u8>,
    pub stderr: Vec<u8>,
}

/// Text with one trailing newline, if there is one, removed.
pub open spec fn trim_newline(s: Seq<char>) -> Seq<char> {
    if s.len() > 0 && s.last() == '\n' {
        s.drop_last()
    } else {
        s
    }
}

/// The result of running `args`: success hands back the output; a program
/// that could not start, or that failed, gives an error naming `args` (with
/// its standard error as text, where that is valid UTF-8).
pub open spec fn cmd_spec(args: Seq<Seq<char>>, o: OutcomeView) -> Result<
    (Seq<u8>, Seq<u8>),
    ErrorView,
> {
    match o {
        OutcomeView::NotLaunched { reason } => Err(ErrorView::CmdIoError { command: args, reason }),
        OutcomeView::Exited { success, stdout, stderr } => {
            if success {
                Ok((stdout, stderr))
            } else if valid_utf8(stderr) {
                Err(ErrorView::CmdError { msg: decode_utf8(stderr), command: args })
            } else {
                Err(ErrorView::CmdParseOutputError { command: args })
            }
        },
    }
}

/// The text that a successful run of `args` printed, without its final
/// newline.
pub open spec fn get_output_spec(args: Seq<Seq<char>>, o: OutcomeView) -> Result<
    Seq<char>,
    ErrorView,
> {
    match cmd_spec(args, o) {
        Err(e) => Err(e),
        Ok((stdout, _)) => {
            if valid_utf8(stdout) {
                Ok(trim_newline(decode_utf8(stdout)))
            } else {
                Err(ErrorView::CmdParseOutputError { command: args })
            }
        },
    }
}

/// The answer of a query program such as `getent`, which exits successfully
/// exactly when the entry asked for exists.
pub open spec fn probe_spec(query: Seq<Seq<char>>, o: OutcomeView) -> Result<bool, ErrorView> {
    match o {
        OutcomeView::NotLaunched { reason } => Err(ErrorView::CmdIoError { command: query, reason }),
        OutcomeView::Exited { success, .. } => Ok(success),
    }
}

/// The absolute path of a file kept in the configuration directory.
pub open spec fn conf_spec(path: Seq<char>) -> Seq<char> {
    CONF@ + "/"@ + path
}

/// The command that looks `name` up in the group database.
pub open spec fn group_query_spec(name: Seq<char>) -> Seq<Seq<char>> {
    seq!["getent"@, "group"@, name]
}

/// The command that looks `name` up in the user database.
pub open spec fn user_query_spec(name: Seq<char>) -> Seq<Seq<char>> {
    seq!["getent"@, "passwd"@, name]
}

/// The command that creates the group `name`.
pub open spec fn group_add_spec(name: Seq<char>) -> Seq<Seq<char>> {
    seq!["/usr/sbin/groupadd"@, name]
}

/// Relies on std::str::from_utf8: it accepts exactly the byte strings that
/// are well-formed UTF-8, and then yields the characters they encode.
#[verifier::external_body]
fn utf8_text(bytes: &Vec<u8>) -> (r: Option<String>)
    ensures
        r is Some <==> valid_utf8(bytes@),
        r matches Some(s) ==> s@ == decode_utf8(bytes@),
{
    match std::str::from_utf8(bytes.as_slice()) {
        Ok(s) => Some(s.to_string()),
        Err(_) => None,
    }
}

/// Removes one trailing newline.
pub fn trim_newline_string(s: String) -> (r: String)
    ensures
        r@ == trim_newline(s@),
{
    let n = s.as_str().unicode_len();
    if n > 0 && s.as_str().get_char(n - 1) == '\n' {
        let t = s.as_str().substring_char(0, n - 1);
        String::from_str(t)
    } else {
        s
    }
}

/// Judges the outcome of running `args`: the output of a successful run, or
/// an error that names the command.
pub fn cmd(args: &Vec<String>, outcome: CommandOutcome) -> (r: Result<
    CommandOutput,
    PeachConfigError,
>)
    ensures
        cmd_spec(strs(args@), outcome@) == match r {
            Ok(out) => Ok((out.stdout@, out.stderr@)),
            Err(e) => Err(e@),
        },
{
    match outcome {
        CommandOutcome::NotLaunched { reason } => Err(
            PeachConfigError::CmdIoError { command: clone_strings(args), reason },
        ),
        CommandOutcome::Exited { success, stdout, stderr } => {
            if success {
                Ok(CommandOutput { stdout, stderr })
            } else {
                match utf8_text(&stderr) {
                    Some(msg) => Err(
                        PeachConfigError::CmdError { msg, command: clone_strings(args) },
                    ),
                    None => Err(PeachConfigError::CmdParseOutputError { command: clone_strings(args) }),
                }
            }
        },
    }
}

/// Judges the outcome of running `args` and returns what it printed as
/// text, without a final newline.
pub fn get_output(args: &Vec<String>, outcome: CommandOutcome) -> (r: Result<
    String,
    PeachConfigError,
>)
    ensures
        get_output_spec(strs(args@), outcome@) == match r {
            Ok(s) => Ok(s@),
            Err(e) => Err(e@),
        },
{
    let output = match cmd(args, outcome) {
        Ok(output) => output,
        Err(e) => {
            return Err(e);
        },
    };
    match utf8_text(&output.stdout) {
        Some(text) => Ok(trim_newline_string(text)),
        None => Err(PeachConfigError::CmdParseOutputError { command: clone_strings(args) }),
    }
}

/// Reads the outcome of a query command: whether the entry exists.
pub fn probe(query: &Vec<String>, outcome: CommandOutcome) -> (r: Result<bool, PeachConfigError>)
    ensures
        probe_spec(strs(query@), outcome@) == match r {
            Ok(b) => Ok(b),
            Err(e) => Err(e@),
        },
{
    match outcome {
        CommandOutcome::NotLaunched { reason } => Err(
            PeachConfigError::CmdIoError { command: clone_strings(query), reason },
        ),
        CommandOutcome::Exited { success, .. } => Ok(success),
    }
}

/// Takes a path relative to the configuration directory and returns the
/// absolute path of the file.
pub fn conf(path: &str) -> (r: String)
    ensures
        r@ == conf_spec(path@),
{
    String::from_str(CONF).concat("/").concat(path)
}

/// The command that looks `name` up in the group database.
pub fn group_query(name: &str) -> (r: Vec<String>)
    ensures
        strs(r@) == group_query_spec(name@),
{
    let r = strings(&["getent", "group", name]);
    assert(strs_of(["getent", "group", name]@) =~= group_query_spec(name@));
    r
}

/// The command that looks `name` up in the user database.
pub fn user_query(name: &str) -> (r: Vec<String>)
    ensures
        strs(r@) == user_query_spec(name@),
{
    let r = strings(&["getent", "passwd", name]);
    assert(strs_of(["getent", "passwd", name]@) =~= user_query_spec(name@));
    r
}

/// The command that creates the group `name`.
pub fn group_add(name: &str) -> (r: Vec<String>)
    ensures
        strs(r@) == group_add_spec(name@),
{
    let r = strings(&["/usr/sbin/groupadd", name]);
    assert(strs_of(["/usr/sbin/groupadd", name]@) =~= group_add_spec(name@));
    r
}

/// Whether the user `user` exists, from the outcome of running
/// [`user_query`] for it.
pub fn does_user_exist(user: &str, outcome: CommandOutcome) -> (r: Result<bool, PeachConfigError>)
    ensures
        probe_spec(user_query_spec(user@), outcome@) == match r {
            Ok(b) => Ok(b),
            Err(e) => Err(e@),
        },
{
    let query = user_query(user);
    probe(&query, outcome)
}

} // verus!

verus! {

/// The steps that create the group `g` unless it already exists.
pub open spec fn create_group_plan(g: Seq<char>) -> Seq<StepView> {
    seq![
        StepView::SkipIfFound { query: group_query_spec(g), skip: 1 },
        StepView::Run { argv: group_add_spec(g) },
    ]
}

/// Creates a Linux group with the given name unless it already exists: the
/// group database is asked first, and the group is added only when absent.
pub fn create_group_if_doesnt_exist(group: &str) -> (r: Vec<Step>)
    ensures
        steps_view(r@) == create_group_plan(group@),
{
    let r = vec![
        Step::SkipIfFound { query: group_query(group), skip: 1 },
        Step::Run { argv: group_add(group) },
    ];
    assert(steps_view(r@) =~= create_group_plan(group@));
    r
}

} // verus!

verus! {

/// A model of the system's group database for [`create_group_plan`]: the
/// group query succeeds exactly for a group in `groups`, and every other
/// command succeeds.
pub open spec fn group_db_outcome(groups: Set<Seq<char>>, argv: Seq<Seq<char>>) -> OutcomeView {
    OutcomeView::Exited {
        success: argv != group_query_spec(argv.last()) || groups.contains(argv.last()),
        stdout: Seq::empty(),
        stderr: Seq::empty(),
    }
}

/// The groups after `argv` ran: adding a group puts it in the database.
pub open spec fn group_db_effect(groups: Set<Seq<char>>, argv: Seq<Seq<char>>) -> Set<Seq<char>> {
    if argv == group_add_spec(argv.last()) {
        groups.insert(argv.last())
    } else {
        groups
    }
}

/// Carries out session `s` for at most `fuel` actions against the group
/// database `groups`: the session at the end, the groups at the end, and the
/// commands that ran, in order.
pub open spec fn run_on_groups(s: SessionView, groups: Set<Seq<char>>, fuel: nat) -> (
    SessionView,
    Set<Seq<char>>,
    Seq<Seq<Seq<char>>>,
)
    decreases fuel,
{
    if fuel == 0 {
        (s, groups, Seq::empty())
    } else {
        match action_of(s) {
            ActionView::Run { argv } => {
                let next = advance_of(s, EventView::Ran { outcome: group_db_outcome(groups, argv) });
                let (t, g, cmds) = run_on_groups(next, group_db_effect(groups, argv), (fuel - 1) as nat);
                (t, g, seq![argv] + cmds)
            },
            _ => (s, groups, Seq::empty()),
        }
    }
}

/// Creating a group twice leaves the system as creating it once: both runs
/// succeed, the group is there afterwards, and the second run only asks the
/// group database.
pub proof fn lemma_create_group_idempotent(g: Seq<char>, groups: Set<Seq<char>>)
    ensures
        ({
            let (s1, g1, _) = run_on_groups(start_of(create_group_plan(g)), groups, 3);
            let (s2, g2, c2) = run_on_groups(start_of(create_group_plan(g)), g1, 3);
            &&& s1.failure is None && is_over(s1)
            &&& g1 == groups.insert(g)
            &&& s2.failure is None && is_over(s2)
            &&& g2 == g1
            &&& c2 == seq![group_query_spec(g)]
        }),
{
    let plan = create_group_plan(g);
    let s0 = start_of(plan);
    assert(group_query_spec(g).last() == g);
    assert(group_add_spec(g).last() == g);
    assert(group_query_spec(g) != group_add_spec(g));
    reveal_with_fuel(run_on_groups, 4);
    let g1 = groups.insert(g);
    assert(g1.contains(g));
    let (s2, g2, c2) = run_on_groups(s0, g1, 3);
    let t = advance_of(s0, EventView::Ran { outcome: group_db_outcome(g1, group_query_spec(g)) });
    assert(t.pos == 2);
    assert(c2 =~= seq![group_query_spec(g)]);
    if groups.contains(g) {
        assert(groups.insert(g) =~= groups);
    }
}

} // verus!
