use vstd::prelude::*;

use crate::plugins::{BuildProfile, Plugin};
use crate::setup::{SetupModel, SetupStatus};

verus! {

/// How far start-up has come.
#[derive(Clone, Copy, Debug, PartialEq, Eq, Structural)]
pub enum Phase {
    Start,
    BuilderCreated,
    NotificationAttached,
    SetupRegistered,
    /// The framework's run call has been made and has not returned yet.
    Running,
    /// The run call returned normally.
    Exited,
    /// The run call failed and the process is to be terminated.
    Terminated,
}

/// One start-up step for the shell to perform.
#[derive(Clone, Copy, Debug, PartialEq, Eq, Structural)]
pub enum Action {
    /// Create the default application builder.
    CreateBuilder,
    /// Attach a plugin to the builder.
    AttachPlugin(Plugin),
    /// Register the one-shot setup hook (see `SetupRun`).
    RegisterSetup,
    /// Make the framework's blocking run call.
    Run,
}

/// How the shell leaves once the run call has returned.
#[derive(Clone, Copy, Debug, PartialEq, Eq, Structural)]
pub enum Exit {
    /// Return to the caller.
    Normal,
    /// Terminate the process with a fatal error.
    Fatal,
}

/// The phases in which a start-up step is still to be taken.
pub open spec fn is_starting(p: Phase) -> bool {
    ||| p is Start
    ||| p is BuilderCreated
    ||| p is NotificationAttached
    ||| p is SetupRegistered
}

pub open spec fn is_finished(p: Phase) -> bool {
    p is Exited || p is Terminated
}

/// The step taken in a phase of start-up.
pub open spec fn action_at(p: Phase) -> Action {
    match p {
        Phase::Start => Action::CreateBuilder,
        Phase::BuilderCreated => Action::AttachPlugin(Plugin::Notification),
        Phase::NotificationAttached => Action::RegisterSetup,
        _ => Action::Run,
    }
}

/// The phase reached once the step of a phase of start-up is taken.
pub open spec fn next_phase(p: Phase) -> Phase {
    match p {
        Phase::Start => Phase::BuilderCreated,
        Phase::BuilderCreated => Phase::NotificationAttached,
        Phase::NotificationAttached => Phase::SetupRegistered,
        Phase::SetupRegistered => Phase::Running,
        _ => p,
    }
}

/// The phase reached from `p` after `n` steps.
pub open spec fn phase_after(p: Phase, n: nat) -> Phase
    decreases n,
{
    if n == 0 {
        p
    } else {
        next_phase(phase_after(p, (n - 1) as nat))
    }
}

/// The steps taken from `p` on, for as long as start-up lasts.
pub open spec fn steps_from(p: Phase) -> Seq<Action>
    decreases (if p is Start { 4nat } else if p is BuilderCreated { 3nat } else if p is NotificationAttached {
        2nat
    } else if p is SetupRegistered { 1nat } else { 0nat }),
{
    if is_starting(p) {
        seq![action_at(p)] + steps_from(next_phase(p))
    } else {
        Seq::empty()
    }
}

/// The whole start-up sequence, in order.
pub open spec fn startup_actions() -> Seq<Action> {
    seq![
        Action::CreateBuilder,
        Action::AttachPlugin(Plugin::Notification),
        Action::RegisterSetup,
        Action::Run,
    ]
}

/// The exit owed after the run call: fatal when the call failed or when the
/// setup hook reported failure.
pub open spec fn exit_for(setup: SetupStatus, run_ok: bool) -> Exit {
    if run_ok && setup != SetupStatus::Failed {
        Exit::Normal
    } else {
        Exit::Fatal
    }
}

/// Drives start-up: hands out the steps in order, records the run call, and
/// decides how to leave once it returns.
pub struct Launcher {
    profile: BuildProfile,
    phase: Phase,
    runs: u64,
    fatal_exits: u64,
}

impl Launcher {
    pub closed spec fn profile_spec(&self) -> BuildProfile {
        self.profile
    }

    pub closed spec fn phase_spec(&self) -> Phase {
        self.phase
    }

    /// How many times the run call has been made.
    pub closed spec fn runs_spec(&self) -> nat {
        self.runs as nat
    }

    /// How many times a fatal exit has been decided.
    pub closed spec fn fatal_exits_spec(&self) -> nat {
        self.fatal_exits as nat
    }

    pub closed spec fn wf(&self) -> bool {
        &&& self.runs == (if is_starting(self.phase) { 0u64 } else { 1u64 })
        &&& self.fatal_exits == (if self.phase is Terminated { 1u64 } else { 0u64 })
    }

    /// The launcher once the step of its phase is taken.
    pub closed spec fn after_advance(self) -> Launcher {
        Launcher {
            phase: next_phase(self.phase),
            runs: if self.phase is SetupRegistered { 1u64 } else { self.runs },
            ..self
        }
    }

    /// The launcher once the run call has returned.
    pub closed spec fn after_finish(self, setup: SetupStatus, run_ok: bool) -> Launcher {
        if exit_for(setup, run_ok) is Fatal {
            Launcher { phase: Phase::Terminated, fatal_exits: 1u64, ..self }
        } else {
            Launcher { phase: Phase::Exited, ..self }
        }
    }

    /// The launcher after `n` start-up steps.
    pub open spec fn advanced(self, n: nat) -> Launcher
        decreases n,
    {
        if n == 0 {
            self
        } else {
            self.advanced((n - 1) as nat).after_advance()
        }
    }

    pub fn new(profile: BuildProfile) -> (r: Launcher)
        ensures
            r.wf(),
            r.profile_spec() == profile,
            r.phase_spec() == Phase::Start,
            r.runs_spec() == 0,
            r.fatal_exits_spec() == 0,
    {
        Launcher { profile, phase: Phase::Start, runs: 0, fatal_exits: 0 }
    }

    pub fn profile(&self) -> (r: BuildProfile)
        ensures
            r == self.profile_spec(),
    {
        self.profile
    }

    pub fn phase(&self) -> (r: Phase)
        ensures
            r == self.phase_spec(),
    {
        self.phase
    }

    /// Whether a start-up step is still to be taken.
    pub fn is_starting(&self) -> (r: bool)
        ensures
            r == is_starting(self.phase_spec()),
    {
        match self.phase {
            Phase::Start | Phase::BuilderCreated | Phase::NotificationAttached
            | Phase::SetupRegistered => true,
            _ => false,
        }
    }

    /// Hands out the next start-up step and moves past it. The last step is
    /// the run call, which is counted here.
    pub fn advance(&mut self) -> (r: Action)
        requires
            old(self).wf(),
            is_starting(old(self).phase_spec()),
        ensures
            final(self).wf(),
            *final(self) == old(self).after_advance(),
            r == action_at(old(self).phase_spec()),
            final(self).phase_spec() == next_phase(old(self).phase_spec()),
            final(self).profile_spec() == old(self).profile_spec(),
            final(self).runs_spec() == old(self).runs_spec() + (if r is Run { 1nat } else { 0nat }),
            final(self).fatal_exits_spec() == old(self).fatal_exits_spec(),
    {
        match self.phase {
            Phase::Start => {
                self.phase = Phase::BuilderCreated;
                Action::CreateBuilder
            },
            Phase::BuilderCreated => {
                self.phase = Phase::NotificationAttached;
                Action::AttachPlugin(Plugin::Notification)
            },
            Phase::NotificationAttached => {
                self.phase = Phase::SetupRegistered;
                Action::RegisterSetup
            },
            _ => {
                self.phase = Phase::Running;
                self.runs = 1;
                Action::Run
            },
        }
    }

    /// Decides how to leave once the run call has returned, given whether it
    /// succeeded and what the setup hook reported.
    pub fn finish(&mut self, setup: SetupStatus, run_ok: bool) -> (r: Exit)
        requires
            old(self).wf(),
            old(self).phase_spec() is Running,
        ensures
            final(self).wf(),
            *final(self) == old(self).after_finish(setup, run_ok),
            r == exit_for(setup, run_ok),
            final(self).phase_spec() == (if r is Fatal { Phase::Terminated } else { Phase::Exited }),
            final(self).profile_spec() == old(self).profile_spec(),
            final(self).runs_spec() == old(self).runs_spec(),
            final(self).fatal_exits_spec() == old(self).fatal_exits_spec() + (if r is Fatal {
                1nat
            } else {
                0nat
            }),
    {
        let fatal = !run_ok || setup == SetupStatus::Failed;
        if fatal {
            self.phase = Phase::Terminated;
            self.fatal_exits = 1;
            Exit::Fatal
        } else {
            self.phase = Phase::Exited;
            Exit::Normal
        }
    }
}

/// Start-up from a fresh launcher takes exactly the steps of
/// `startup_actions`, in order; each is handed out in a phase where `advance`
/// is admitted, so nothing fails before the run call. The run call is the last
/// step, it is made exactly once, and no step follows it.
pub proof fn lemma_startup_reaches_run_once(l: Launcher)
    requires
        l.wf(),
        l.phase_spec() is Start,
    ensures
        steps_from(l.phase_spec()) == startup_actions(),
        forall|i: nat|
            i < 4 ==> {
                &&& (#[trigger] l.advanced(i)).wf()
                &&& is_starting(l.advanced(i).phase_spec())
                &&& action_at(l.advanced(i).phase_spec()) == startup_actions()[i as int]
                &&& l.advanced(i).runs_spec() == 0
            },
        forall|i: int| 0 <= i < 3 ==> !(#[trigger] startup_actions()[i] is Run),
        startup_actions()[3] is Run,
        l.advanced(4).wf(),
        l.advanced(4).phase_spec() is Running,
        !is_starting(l.advanced(4).phase_spec()),
        l.advanced(4).runs_spec() == 1,
        l.advanced(4).profile_spec() == l.profile_spec(),
{
    reveal_with_fuel(Launcher::advanced, 5);
    reveal_with_fuel(steps_from, 5);
    assert(steps_from(l.phase_spec()) =~= startup_actions());
    assert forall|i: nat| i < 4 implies {
        &&& (#[trigger] l.advanced(i)).wf()
        &&& is_starting(l.advanced(i).phase_spec())
        &&& action_at(l.advanced(i).phase_spec()) == startup_actions()[i as int]
        &&& l.advanced(i).runs_spec() == 0
    } by {
        if i == 0 {
        } else if i == 1 {
        } else if i == 2 {
        } else {
        }
    }
}

/// When the setup hook fails to attach a plugin, the run is treated as
/// failed, whatever the framework's run call itself returned.
pub proof fn lemma_setup_failure_fails_run(m: SetupModel, run_ok: bool)
    requires
        m.wf(),
        m.next_step() is Attach,
    ensures
        m.after_attempt(false).status() == SetupStatus::Failed,
        exit_for(m.after_attempt(false).status(), run_ok) == Exit::Fatal,
{
}

/// A failed run call always ends in a fatal exit, decided exactly once: after
/// it the launcher admits neither another step nor another decision.
pub proof fn lemma_failed_run_terminates_once(l: Launcher, setup: SetupStatus)
    requires
        l.wf(),
        l.phase_spec() is Running,
    ensures
        exit_for(setup, false) == Exit::Fatal,
        l.fatal_exits_spec() == 0,
        l.after_finish(setup, false).wf(),
        l.after_finish(setup, false).phase_spec() is Terminated,
        l.after_finish(setup, false).fatal_exits_spec() == 1,
        !is_starting(l.after_finish(setup, false).phase_spec()),
        !(l.after_finish(setup, false).phase_spec() is Running),
{
}

} // verus!
