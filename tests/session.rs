use ask_ollama::session::{Action, Event, Failure, Phase, Session};

fn words(list: &[&str]) -> Vec<String> {
    list.iter().map(|w| w.to_string()).collect()
}

#[test]
fn help_asks_for_nothing_else() {
    let (mut s, first) = Session::start(&words(&["--help"]));
    assert_eq!(first, Action::PrintHelp);
    assert_eq!(s.phase, Phase::Done);
    assert_eq!(s.step(Event::Checked { launched: true, success: false }), None);
    assert_eq!(s.step(Event::Installed { launched: true, success: true }), None);
    assert_eq!(s.step(Event::Ran { launched: true, success: true, stderr_empty: true }), None);
    assert_eq!(s.phase, Phase::Done);
}

#[test]
fn version_asks_for_nothing_else() {
    let (s, first) = Session::start(&words(&["--version"]));
    assert_eq!(first, Action::PrintVersion);
    assert_eq!(s.phase, Phase::Done);
}

#[test]
fn missing_runner_is_installed_once_then_run() {
    let (mut s, first) = Session::start(&words(&["why"]));
    assert_eq!(first, Action::CheckInstalled);
    assert_eq!(s.step(Event::Checked { launched: false, success: false }), Some(Action::Install));
    assert_eq!(s.phase, Phase::Installing);
    assert_eq!(s.step(Event::Checked { launched: true, success: true }), None);
    assert_eq!(s.step(Event::Installed { launched: true, success: true }), Some(Action::Run));
    assert_eq!(
        s.step(Event::Ran { launched: true, success: true, stderr_empty: true }),
        Some(Action::Relay { print_stderr: false, exit_ok: true })
    );
    assert_eq!(s.phase, Phase::Done);
}

#[test]
fn installed_runner_runs_at_once() {
    let (mut s, _) = Session::start(&words(&["why"]));
    assert_eq!(s.step(Event::Checked { launched: true, success: true }), Some(Action::Run));
    assert_eq!(s.phase, Phase::Running);
}

#[test]
fn failed_installer_aborts() {
    let (mut s, _) = Session::start(&words(&["why"]));
    assert_eq!(s.step(Event::Checked { launched: true, success: false }), Some(Action::Install));
    assert_eq!(
        s.step(Event::Installed { launched: true, success: false }),
        Some(Action::Abort(Failure::InstallFailed))
    );
    assert_eq!(s.phase, Phase::Done);
}

#[test]
fn runner_that_cannot_start_aborts() {
    let (mut s, _) = Session::start(&words(&["why"]));
    s.step(Event::Checked { launched: true, success: true });
    assert_eq!(
        s.step(Event::Ran { launched: false, success: false, stderr_empty: true }),
        Some(Action::Abort(Failure::RunFailed))
    );
}

#[test]
fn failing_runner_output_is_still_relayed() {
    let (mut s, _) = Session::start(&words(&["why"]));
    s.step(Event::Checked { launched: true, success: true });
    assert_eq!(
        s.step(Event::Ran { launched: true, success: false, stderr_empty: false }),
        Some(Action::Relay { print_stderr: true, exit_ok: false })
    );
}

#[test]
fn runner_gets_model_then_question() {
    let (s, _) = Session::start(&words(&["--model=llama2", "why", "is", "it", "so"]));
    assert_eq!(s.runner_args(), vec!["run", "llama2", "why is it so"]);
}

#[test]
fn runner_gets_default_request() {
    let (s, _) = Session::start(&words(&[]));
    assert_eq!(
        s.runner_args(),
        vec![
            "run",
            "mistral",
            "Tell me that I forgot to ask you a question. Ask me to ask you a question."
        ]
    );
}
