use fork::driver::{Daemonizer, Directive, Event, StepResult};

#[test]
fn original_process_exits_on_seeing_parent() {
    let mut d = Daemonizer::start(false, false);
    assert_eq!(d.directive(), Directive::Split);
    assert_eq!(d.step(Event::SplitParent(4242)), StepResult::ExitProcess);
}

#[test]
fn full_run_with_both_steps_enabled() {
    // The first child's walk through the protocol: session, directory,
    // streams, second split — in exactly that order.
    let mut d = Daemonizer::start(false, false);
    assert_eq!(d.directive(), Directive::Split);
    assert_eq!(d.step(Event::SplitChild), StepResult::Proceed);
    assert_eq!(d.directive(), Directive::NewSession);
    assert_eq!(d.step(Event::SessionCreated(101)), StepResult::Proceed);
    assert_eq!(d.directive(), Directive::ChangeDirToRoot);
    assert_eq!(d.step(Event::DirChanged), StepResult::Proceed);
    assert_eq!(d.directive(), Directive::RedirectStreams);
    assert_eq!(d.step(Event::StreamsRedirected), StepResult::Proceed);
    assert_eq!(d.directive(), Directive::Split);
    assert_eq!(d.step(Event::SplitChild), StepResult::BecomeDaemon);
}

#[test]
fn intermediate_process_exits_at_the_second_split() {
    let mut d = Daemonizer::start(true, true);
    d.step(Event::SplitChild);
    d.step(Event::SessionCreated(101));
    assert_eq!(d.directive(), Directive::Split);
    assert_eq!(d.step(Event::SplitParent(102)), StepResult::ExitProcess);
}

#[test]
fn skipped_steps_are_never_directed() {
    // With the directory change skipped, the session step leads straight to
    // the streams; with both skipped, straight to the second split.
    let mut d = Daemonizer::start(true, false);
    d.step(Event::SplitChild);
    d.step(Event::SessionCreated(101));
    assert_eq!(d.directive(), Directive::RedirectStreams);

    let mut d = Daemonizer::start(true, true);
    d.step(Event::SplitChild);
    d.step(Event::SessionCreated(101));
    assert_eq!(d.directive(), Directive::Split);

    let mut d = Daemonizer::start(false, true);
    d.step(Event::SplitChild);
    d.step(Event::SessionCreated(101));
    assert_eq!(d.directive(), Directive::ChangeDirToRoot);
    d.step(Event::DirChanged);
    assert_eq!(d.directive(), Directive::Split);
}

#[test]
fn a_failed_first_split_aborts_with_the_os_code() {
    let mut d = Daemonizer::start(false, false);
    // EAGAIN, as fork reports when the process limit is reached.
    assert_eq!(d.step(Event::CallFailed(11)), StepResult::Abort(11));
}

#[test]
fn a_failed_session_call_aborts_before_any_later_step() {
    let mut d = Daemonizer::start(false, false);
    d.step(Event::SplitChild);
    assert_eq!(d.directive(), Directive::NewSession);
    // EPERM from setsid: the protocol stops here; the directory change and
    // the second split are never directed.
    assert_eq!(d.step(Event::CallFailed(1)), StepResult::Abort(1));
}

#[test]
fn a_failed_directory_change_aborts() {
    let mut d = Daemonizer::start(false, false);
    d.step(Event::SplitChild);
    d.step(Event::SessionCreated(101));
    assert_eq!(d.directive(), Directive::ChangeDirToRoot);
    // EACCES from chdir.
    assert_eq!(d.step(Event::CallFailed(13)), StepResult::Abort(13));
}

#[test]
fn a_failed_redirection_aborts() {
    let mut d = Daemonizer::start(false, false);
    d.step(Event::SplitChild);
    d.step(Event::SessionCreated(101));
    d.step(Event::DirChanged);
    assert_eq!(d.directive(), Directive::RedirectStreams);
    // EMFILE from opening the null device.
    assert_eq!(d.step(Event::CallFailed(24)), StepResult::Abort(24));
}
