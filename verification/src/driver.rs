//! The double-fork protocol as an event-driven state machine.
//!
//! The kernel calls themselves — fork, setsid, chdir, the stream redirection
//! — cannot run inside verified code; an unverified shell performs them. The
//! shell owns no decisions: it asks the [`Daemonizer`] what to perform next
//! ([`Daemonizer::directive`]), performs that one call, reports what came
//! back as an [`Event`], and obeys the resulting [`StepResult`]. Every
//! transition — which step follows which, what each observation means, where
//! an error stops the protocol — is fixed by [`spec_step`] and proved about
//! [`Daemonizer::step`].
//!
//! The law lemmas at the bottom pin the protocol's shape: it only ever moves
//! forward, so the directory change precedes the stream redirection precedes
//! the second split; a process is told to terminate exactly when it observes
//! `Parent`; only the second split's child becomes the daemon; and a failed
//! call aborts the run on the spot, so no later step is ever attempted.

use vstd::prelude::*;

verus! {

/// Where in the protocol the executing process stands.
#[derive(Debug, Clone, Copy, PartialEq, Eq, Structural)]
pub enum Phase {
    /// The original process is about to split.
    FirstSplit,
    /// The first child is about to become a session leader.
    CreateSession,
    /// The first child is about to move to the filesystem root.
    ChangeDir,
    /// The first child is about to redirect its standard streams.
    NeutralizeStreams,
    /// The first child is about to split into the daemon.
    SecondSplit,
}

/// The one kernel call the shell must perform next.
#[derive(Debug, Clone, Copy, PartialEq, Eq, Structural)]
pub enum Directive {
    /// Fork.
    Split,
    /// Setsid.
    NewSession,
    /// Chdir to the filesystem root.
    ChangeDirToRoot,
    /// Redirect descriptors 0..2 to the null device.
    RedirectStreams,
}

/// What the performed call reported back.
#[derive(Debug, Clone, Copy, PartialEq, Eq, Structural)]
pub enum Event {
    /// The split returned in the original process, carrying the child's pid.
    SplitParent(i32),
    /// The split returned in the new process.
    SplitChild,
    /// The session was created; the new session id is the caller's pid.
    SessionCreated(i32),
    /// The working directory is now the filesystem root.
    DirChanged,
    /// Descriptors 0..2 are now bound to the null device.
    StreamsRedirected,
    /// The call failed with the given OS error code.
    CallFailed(i32),
}

/// What the executing process must do after a step.
#[derive(Debug, Clone, Copy, PartialEq, Eq, Structural)]
pub enum StepResult {
    /// The protocol continues; ask for the next directive.
    Proceed,
    /// This process's part is over: terminate with a successful exit status.
    /// Intentional, not an error — the protocol spawns two processes whose
    /// only job is to bring the next one into existence.
    ExitProcess,
    /// This process is the detached daemon; hand `Child` to the caller.
    BecomeDaemon,
    /// The call failed; hand the OS error code to the caller, which remains
    /// a live, ordinary process.
    Abort(i32),
}

/// The directive each phase issues.
pub open spec fn spec_directive(p: Phase) -> Directive {
    match p {
        Phase::FirstSplit => Directive::Split,
        Phase::CreateSession => Directive::NewSession,
        Phase::ChangeDir => Directive::ChangeDirToRoot,
        Phase::NeutralizeStreams => Directive::RedirectStreams,
        Phase::SecondSplit => Directive::Split,
    }
}

/// Whether `ev` can answer the directive of phase `p`. A failure can answer
/// any call; every other event reports the success of one specific call.
pub open spec fn answers(p: Phase, ev: Event) -> bool {
    match ev {
        Event::SplitParent(_) => p is FirstSplit || p is SecondSplit,
        Event::SplitChild => p is FirstSplit || p is SecondSplit,
        Event::SessionCreated(_) => p is CreateSession,
        Event::DirChanged => p is ChangeDir,
        Event::StreamsRedirected => p is NeutralizeStreams,
        Event::CallFailed(_) => true,
    }
}

/// The phase that follows a successful `setsid`, honouring the two skip
/// options: directory change first, then stream neutralization, then the
/// second split.
pub open spec fn phase_after_session(nochdir: bool, noclose: bool) -> Phase {
    if !nochdir {
        Phase::ChangeDir
    } else if !noclose {
        Phase::NeutralizeStreams
    } else {
        Phase::SecondSplit
    }
}

/// The phase that follows the directory change.
pub open spec fn phase_after_dir(noclose: bool) -> Phase {
    if !noclose {
        Phase::NeutralizeStreams
    } else {
        Phase::SecondSplit
    }
}

/// The whole transition relation: what phase the machine moves to and what
/// the process must do, for each phase and answering event.
pub open spec fn spec_step(nochdir: bool, noclose: bool, p: Phase, ev: Event) -> (
    Phase,
    StepResult,
) {
    match ev {
        Event::CallFailed(code) => (p, StepResult::Abort(code)),
        Event::SplitParent(_) => (p, StepResult::ExitProcess),
        Event::SplitChild => if p is FirstSplit {
            (Phase::CreateSession, StepResult::Proceed)
        } else {
            (p, StepResult::BecomeDaemon)
        },
        Event::SessionCreated(_) => (phase_after_session(nochdir, noclose), StepResult::Proceed),
        Event::DirChanged => (phase_after_dir(noclose), StepResult::Proceed),
        Event::StreamsRedirected => (Phase::SecondSplit, StepResult::Proceed),
    }
}

/// The verified core of `daemon(nochdir, noclose)`: a machine the unverified
/// shell steps through the protocol, one kernel call at a time.
pub struct Daemonizer {
    /// Skip the change to the filesystem root.
    pub nochdir: bool,
    /// Skip the stream redirection.
    pub noclose: bool,
    /// Where the executing process stands.
    pub phase: Phase,
    /// Still running: no terminal step result has been issued yet.
    pub running: bool,
}

impl Daemonizer {
    /// A run of the protocol, about to perform the first split.
    pub fn start(nochdir: bool, noclose: bool) -> (d: Daemonizer)
        ensures
            d.nochdir == nochdir,
            d.noclose == noclose,
            d.phase == Phase::FirstSplit,
            d.running,
    {
        Daemonizer { nochdir, noclose, phase: Phase::FirstSplit, running: true }
    }

    /// The one kernel call to perform now.
    pub fn directive(&self) -> (d: Directive)
        requires
            self.running,
        ensures
            d == spec_directive(self.phase),
    {
        match self.phase {
            Phase::FirstSplit => Directive::Split,
            Phase::CreateSession => Directive::NewSession,
            Phase::ChangeDir => Directive::ChangeDirToRoot,
            Phase::NeutralizeStreams => Directive::RedirectStreams,
            Phase::SecondSplit => Directive::Split,
        }
    }

    /// Advances the machine on what the performed call reported.
    pub fn step(&mut self, ev: Event) -> (r: StepResult)
        requires
            old(self).running,
            answers(old(self).phase, ev),
        ensures
            r == spec_step(old(self).nochdir, old(self).noclose, old(self).phase, ev).1,
            final(self).phase == spec_step(
                old(self).nochdir,
                old(self).noclose,
                old(self).phase,
                ev,
            ).0,
            final(self).nochdir == old(self).nochdir,
            final(self).noclose == old(self).noclose,
            final(self).running == (r is Proceed),
    {
        let r = match ev {
            Event::CallFailed(code) => StepResult::Abort(code),
            Event::SplitParent(_) => StepResult::ExitProcess,
            Event::SplitChild => {
                match self.phase {
                    Phase::FirstSplit => {
                        self.phase = Phase::CreateSession;
                        StepResult::Proceed
                    },
                    _ => StepResult::BecomeDaemon,
                }
            },
            Event::SessionCreated(_) => {
                if !self.nochdir {
                    self.phase = Phase::ChangeDir;
                } else if !self.noclose {
                    self.phase = Phase::NeutralizeStreams;
                } else {
                    self.phase = Phase::SecondSplit;
                }
                StepResult::Proceed
            },
            Event::DirChanged => {
                if !self.noclose {
                    self.phase = Phase::NeutralizeStreams;
                } else {
                    self.phase = Phase::SecondSplit;
                }
                StepResult::Proceed
            },
            Event::StreamsRedirected => {
                self.phase = Phase::SecondSplit;
                StepResult::Proceed
            },
        };
        self.running = match r {
            StepResult::Proceed => true,
            _ => false,
        };
        r
    }
}

/// How far along the protocol a phase stands.
pub open spec fn phase_rank(p: Phase) -> int {
    match p {
        Phase::FirstSplit => 0,
        Phase::CreateSession => 1,
        Phase::ChangeDir => 2,
        Phase::NeutralizeStreams => 3,
        Phase::SecondSplit => 4,
    }
}

/// Law: the protocol only moves forward. Every step that proceeds strictly
/// increases the phase rank, so each step runs at most once, the directory
/// change precedes the stream redirection precedes the second split, and a
/// shell obeying the machine terminates.
pub proof fn lemma_protocol_moves_forward(nochdir: bool, noclose: bool, p: Phase, ev: Event)
    requires
        answers(p, ev),
        spec_step(nochdir, noclose, p, ev).1 is Proceed,
    ensures
        phase_rank(spec_step(nochdir, noclose, p, ev).0) > phase_rank(p),
{
}

/// Law: a process is told to terminate successfully exactly when it
/// observed `Parent` — the two deliberate deaths of the protocol, and
/// nothing else, end a process.
pub proof fn lemma_exit_means_parent(nochdir: bool, noclose: bool, p: Phase, ev: Event)
    requires
        answers(p, ev),
    ensures
        spec_step(nochdir, noclose, p, ev).1 is ExitProcess <==> ev is SplitParent,
{
}

/// Law: only the second split's child becomes the daemon; the first split's
/// child always has the rest of the protocol still ahead of it.
pub proof fn lemma_daemon_only_after_second_split(nochdir: bool, noclose: bool, p: Phase, ev: Event)
    requires
        answers(p, ev),
    ensures
        spec_step(nochdir, noclose, p, ev).1 is BecomeDaemon <==> (p is SecondSplit
            && ev is SplitChild),
{
}

/// Law: a failed call aborts the protocol exactly then and there, with the
/// OS error code passed through verbatim and the phase not advancing — the
/// error propagates immediately and no later step is attempted.
pub proof fn lemma_failure_aborts(nochdir: bool, noclose: bool, p: Phase, ev: Event, code: i32)
    requires
        answers(p, ev),
    ensures
        spec_step(nochdir, noclose, p, ev).1 == StepResult::Abort(code) <==> ev
            == Event::CallFailed(code),
        ev is CallFailed ==> spec_step(nochdir, noclose, p, ev).0 == p,
{
}

/// The skip options' invariant on phases: a run never stands in the
/// directory phase when `nochdir` is set, nor in the stream phase when
/// `noclose` is set.
pub open spec fn phase_respects_skips(nochdir: bool, noclose: bool, p: Phase) -> bool {
    &&& p is ChangeDir ==> !nochdir
    &&& p is NeutralizeStreams ==> !noclose
}

/// Law: the skip options are honoured. The invariant holds of the starting
/// phase and every step preserves it, so no run of the machine ever issues
/// a directive the caller asked to skip.
pub proof fn lemma_skips_honoured(nochdir: bool, noclose: bool, p: Phase, ev: Event)
    requires
        answers(p, ev),
        phase_respects_skips(nochdir, noclose, p),
    ensures
        phase_respects_skips(nochdir, noclose, Phase::FirstSplit),
        phase_respects_skips(nochdir, noclose, spec_step(nochdir, noclose, p, ev).0),
{
}

} // verus!
