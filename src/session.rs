//! The decisions of one run: check that the runner is installed, install it
//! if not, run it, and say what to show of its output.
use vstd::prelude::*;
use vstd::string::StringExecFns;

use crate::args::{
    arg_views, default_model, default_model_text, default_question_text, default_question, is_help, is_version, model_of, parse_command,
    question_of, Command, Request,
};

verus! {

/// The runner program.
pub const RUNNER: &'static str = "ollama";

/// The shell command that succeeds iff the runner is on the search path.
pub const CHECK_SCRIPT: &'static str = "command -v ollama";

/// The shell command that downloads and runs the runner's installer.
pub const INSTALL_SCRIPT: &'static str = "curl https://ollama.ai/install.sh | sh";

/// Where a run stands.
#[derive(PartialEq, Eq, Structural, Clone, Copy, Debug)]
pub enum Phase {
    /// Waiting for the outcome of the install check.
    Checking,
    /// Waiting for the outcome of the installer.
    Installing,
    /// Waiting for the outcome of the runner.
    Running,
    /// Nothing more to do.
    Done,
}

/// Why a run gave up.
#[derive(PartialEq, Eq, Structural, Clone, Copy, Debug)]
pub enum Failure {
    /// The installer could not be started or did not succeed.
    InstallFailed,
    /// The runner could not be started.
    RunFailed,
}

/// What came back from the outside work that an action asked for.
#[derive(PartialEq, Eq, Structural, Clone, Copy, Debug)]
pub enum Event {
    /// The install check: whether it could be started, and whether it succeeded.
    Checked { launched: bool, success: bool },
    /// The installer: whether it could be started, and whether it succeeded.
    Installed { launched: bool, success: bool },
    /// The runner: whether it could be started, whether it exited successfully,
    /// and whether its standard error was empty.
    Ran { launched: bool, success: bool, stderr_empty: bool },
}

/// What the caller is to do next.
#[derive(PartialEq, Eq, Structural, Clone, Copy, Debug)]
pub enum Action {
    PrintHelp,
    PrintVersion,
    /// Run the install check.
    CheckInstalled,
    /// Run the installer.
    Install,
    /// Run the runner with the arguments of `Session::runner_args`.
    Run,
    /// Print the runner's standard output; its standard error too if
    /// `print_stderr`; and a note on the exit status unless `exit_ok`.
    Relay { print_stderr: bool, exit_ok: bool },
    /// Stop with a diagnostic and a failure status.
    Abort(Failure),
}

/// Where an event leads from a phase, and the action it calls for; an event
/// that does not belong to the phase changes nothing and asks for nothing.
pub open spec fn transition(p: Phase, e: Event) -> (Phase, Option<Action>) {
    match p {
        Phase::Checking => match e {
            Event::Checked { launched, success } => if launched && success {
                (Phase::Running, Some(Action::Run))
            } else {
                (Phase::Installing, Some(Action::Install))
            },
            _ => (p, None),
        },
        Phase::Installing => match e {
            Event::Installed { launched, success } => if launched && success {
                (Phase::Running, Some(Action::Run))
            } else {
                (Phase::Done, Some(Action::Abort(Failure::InstallFailed)))
            },
            _ => (p, None),
        },
        Phase::Running => match e {
            Event::Ran { launched, success, stderr_empty } => if launched {
                (Phase::Done, Some(Action::Relay { print_stderr: !stderr_empty, exit_ok: success }))
            } else {
                (Phase::Done, Some(Action::Abort(Failure::RunFailed)))
            },
            _ => (p, None),
        },
        Phase::Done => (p, None),
    }
}

/// The actions asked for, in order, when the events come one after another from phase `p`.
pub open spec fn trace(p: Phase, events: Seq<Event>) -> Seq<Action>
    decreases events.len(),
{
    if events.len() == 0 {
        Seq::empty()
    } else {
        let (q, a) = transition(p, events[0]);
        let rest = trace(q, events.drop_first());
        match a {
            Some(x) => seq![x] + rest,
            None => rest,
        }
    }
}

/// The phase a run starts in.
pub open spec fn start_phase(args: Seq<Seq<char>>) -> Phase {
    if is_help(args) || is_version(args) {
        Phase::Done
    } else {
        Phase::Checking
    }
}

/// The first action of a run.
pub open spec fn start_action(args: Seq<Seq<char>>) -> Action {
    if is_help(args) {
        Action::PrintHelp
    } else if is_version(args) {
        Action::PrintVersion
    } else {
        Action::CheckInstalled
    }
}

/// One run of the front-end.
#[derive(Debug)]
pub struct Session {
    pub request: Request,
    pub phase: Phase,
}

impl Session {
    /// Starts a run on the arguments (the program name left out), and gives the first action.
    pub fn start(args: &Vec<String>) -> (r: (Session, Action))
        ensures
            r.0.phase == start_phase(arg_views(args@)),
            r.1 == start_action(arg_views(args@)),
            r.0.phase == Phase::Checking ==> r.0.request.model@ == model_of(arg_views(args@))
                && r.0.request.question@ == question_of(arg_views(args@)),
            r.0.phase == Phase::Done ==> r.0.request.model@ == default_model()
                && r.0.request.question@ == default_question(),
    {
        match parse_command(args) {
            Command::Ask(request) => (Session { request, phase: Phase::Checking }, Action::CheckInstalled),
            Command::Help => (Session::finished(), Action::PrintHelp),
            Command::Version => (Session::finished(), Action::PrintVersion),
        }
    }

    fn finished() -> (r: Session)
        ensures
            r.phase == Phase::Done,
            r.request.model@ == default_model(),
            r.request.question@ == default_question(),
    {
        let request = Request { model: default_model_text(), question: default_question_text() };
        Session { request, phase: Phase::Done }
    }

    /// Takes in what the last action's outside work gave, and says what to do next.
    pub fn step(&mut self, e: Event) -> (r: Option<Action>)
        ensures
            (final(self).phase, r) == transition(old(self).phase, e),
            final(self).request == old(self).request,
    {
        let (phase, action) = match (self.phase, e) {
            (Phase::Checking, Event::Checked { launched, success }) => if launched && success {
                (Phase::Running, Some(Action::Run))
            } else {
                (Phase::Installing, Some(Action::Install))
            },
            (Phase::Installing, Event::Installed { launched, success }) => if launched && success {
                (Phase::Running, Some(Action::Run))
            } else {
                (Phase::Done, Some(Action::Abort(Failure::InstallFailed)))
            },
            (Phase::Running, Event::Ran { launched, success, stderr_empty }) => if launched {
                (Phase::Done, Some(Action::Relay { print_stderr: !stderr_empty, exit_ok: success }))
            } else {
                (Phase::Done, Some(Action::Abort(Failure::RunFailed)))
            },
            _ => (self.phase, None),
        };
        self.phase = phase;
        action
    }

    /// The arguments handed to the runner: `run`, the model, the question,
    /// each one argument as it stands.
    pub fn runner_args(&self) -> (r: Vec<String>)
        ensures
            r@.len() == 3,
            r@[0]@ == "run"@,
            r@[1]@ == self.request.model@,
            r@[2]@ == self.request.question@,
    {
        let mut r: Vec<String> = Vec::new();
        r.push("run".to_owned());
        r.push(self.request.model.as_str().to_owned());
        r.push(self.request.question.as_str().to_owned());
        r
    }
}

/// Once a run is done, no event asks for anything more.
pub proof fn done_asks_nothing(events: Seq<Event>)
    ensures
        trace(Phase::Done, events).len() == 0,
    decreases events.len(),
{
    if events.len() > 0 {
        done_asks_nothing(events.drop_first());
    }
}

/// Past the install check, nothing asks for the installer.
proof fn no_install_after_check(p: Phase, events: Seq<Event>)
    requires
        p != Phase::Checking,
    ensures
        forall|k: int| 0 <= k < trace(p, events).len() ==> trace(p, events)[k] != Action::Install,
    decreases events.len(),
{
    if events.len() > 0 {
        no_install_after_check(transition(p, events[0]).0, events.drop_first());
    }
}

/// A leading `--help` prints the usage text and nothing else: no install
/// check, no installer and no runner, whatever comes after.
pub proof fn help_runs_nothing(args: Seq<Seq<char>>, events: Seq<Event>)
    requires
        is_help(args),
    ensures
        start_action(args) == Action::PrintHelp,
        start_phase(args) == Phase::Done,
        trace(start_phase(args), events).len() == 0,
{
    done_asks_nothing(events);
}

/// When the install check fails, the installer is attempted exactly once,
/// and before the runner.
pub proof fn failed_check_installs_once(launched: bool, success: bool, events: Seq<Event>)
    requires
        !(launched && success),
    ensures
        trace(Phase::Checking, seq![Event::Checked { launched, success }] + events).len() >= 1,
        trace(Phase::Checking, seq![Event::Checked { launched, success }] + events)[0] == Action::Install,
        forall|k: int|
            1 <= k < trace(Phase::Checking, seq![Event::Checked { launched, success }] + events).len()
                ==> trace(Phase::Checking, seq![Event::Checked { launched, success }] + events)[k]
                != Action::Install,
{
    let all = seq![Event::Checked { launched, success }] + events;
    assert(all.drop_first() =~= events);
    no_install_after_check(Phase::Installing, events);
}

/// When the install check succeeds, the runner is asked for at once and the
/// installer never is.
pub proof fn passed_check_never_installs(events: Seq<Event>)
    ensures
        trace(Phase::Checking, seq![Event::Checked { launched: true, success: true }] + events)[0]
            == Action::Run,
        forall|k: int|
            0 <= k < trace(Phase::Checking, seq![Event::Checked { launched: true, success: true }] + events).len()
                ==> trace(Phase::Checking, seq![Event::Checked { launched: true, success: true }] + events)[k]
                != Action::Install,
{
    let all = seq![Event::Checked { launched: true, success: true }] + events;
    assert(all.drop_first() =~= events);
    no_install_after_check(Phase::Running, events);
}

} // verus!
