use lazy_pregen::console::Text;
use lazy_pregen::startup::{Progress, Startup, StartupError};

const STARTING: &str = "[12:00:00] [Server thread/INFO]: Starting minecraft server version 1.13.2";
const DONE: &str = "[12:00:09] [Server thread/INFO]: Done (5.123s)! For help, type \"help\"";
const EULA: &str = "[12:00:00] [Server thread/INFO]: You need to agree to the EULA in order to run the server. Go to eula.txt for more info.";

fn out(line: &str) -> Option<Text> {
    Some(Text::Stdout(line.to_string()))
}

fn err(line: &str) -> Option<Text> {
    Some(Text::Stderr(line.to_string()))
}

/// What is known after each of some lines.
fn follow(lines: Vec<Option<Text>>) -> Vec<Progress> {
    let mut startup = Startup::new();
    lines.into_iter().map(|line| startup.read_console(line)).collect()
}

#[test]
fn server_becomes_ready() {
    assert_eq!(
        follow(vec![out("loading"), out(STARTING), out("preparing"), out(DONE)]),
        vec![Progress::Waiting, Progress::Waiting, Progress::Waiting, Progress::Ready]
    );
}

#[test]
fn done_before_starting_does_not_count() {
    assert_eq!(
        follow(vec![out(DONE), out(STARTING), None]),
        vec![
            Progress::Waiting,
            Progress::Waiting,
            Progress::Failed(StartupError::NotReady)
        ]
    );
}

#[test]
fn server_that_never_starts() {
    assert_eq!(
        follow(vec![out("hello"), None]),
        vec![Progress::Waiting, Progress::Failed(StartupError::NotStarted)]
    );
    assert_eq!(follow(vec![None]), vec![Progress::Failed(StartupError::NotStarted)]);
}

#[test]
fn license_is_blamed_if_asked_for() {
    assert_eq!(
        follow(vec![out(STARTING), out(EULA), out("bye"), None]).pop(),
        Some(Progress::Failed(StartupError::EulaNotAgreed))
    );
    assert_eq!(
        follow(vec![out(EULA), out(STARTING), None]).pop(),
        Some(Progress::Failed(StartupError::NotReady))
    );
}

#[test]
fn license_question_does_not_hinder_a_server_that_becomes_ready() {
    assert_eq!(follow(vec![out(STARTING), out(EULA), out(DONE)]).pop(), Some(Progress::Ready));
}

#[test]
fn standard_error_is_not_listened_to() {
    assert_eq!(
        follow(vec![err(STARTING), None]).pop(),
        Some(Progress::Failed(StartupError::NotStarted))
    );
    assert_eq!(
        follow(vec![out(STARTING), err(DONE), err(EULA), None]).pop(),
        Some(Progress::Failed(StartupError::NotReady))
    );
}

/// Whether a line counts as the one that says that the server starts.
fn starts(line: &str) -> bool {
    follow(vec![out(line), None]).pop() != Some(Progress::Failed(StartupError::NotStarted))
}

#[test]
fn lines_that_say_starting() {
    assert!(starts(": Starting minecraft server version "));
    assert!(starts("a: Starting minecraft server version 1.13"));
    assert!(starts("a\nb: Starting minecraft server version 1.13"));
    assert!(!starts(": Starting minecraft server version"));
    assert!(!starts("Starting minecraft server version 1.13"));
    assert!(!starts(": Starting minecraft server version 1\n2"));
    assert!(!starts(": starting minecraft server version 1.13"));
}

/// Whether a line counts as the one that says that the server takes commands.
fn is_done(line: &str) -> bool {
    follow(vec![out(STARTING), out(line)]).pop() == Some(Progress::Ready)
}

#[test]
fn lines_that_say_done() {
    assert!(is_done(": Done x! For help, type \"help\""));
    assert!(is_done(": Done ! For help, type \"help\"! For help, type \"help\""));
    assert!(is_done("\n: Done \u{e9}! For help, type \"help\""));
    assert!(!is_done(": Done ! For help, type \"help\""));
    assert!(!is_done(": Done x! For help, type \"help\"."));
    assert!(!is_done(": Done x! For help, type help"));
    assert!(!is_done(": Done x\ny! For help, type \"help\""));
    assert!(!is_done(": Done x! For help, type \"help\"\n"));
}

/// Whether a line counts as the one that asks for agreement to the license.
fn asks(line: &str) -> bool {
    follow(vec![out(STARTING), out(line), None]).pop()
        == Some(Progress::Failed(StartupError::EulaNotAgreed))
}

#[test]
fn lines_that_ask_for_agreement() {
    assert!(asks(": You need to agree to the EULA in order to run the server. Go to eula.txt for more info."));
    assert!(!asks(": You need to agree to the EULA in order to run the server! Go to eula.txt for more info."));
    assert!(!asks(": You need to agree to the EULA in order to run the server. Go to eula_txt for more info."));
    assert!(!asks(": You need to agree to the EULA in order to run the server. Go to eula.txt for more info"));
}
