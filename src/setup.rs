use vstd::prelude::*;

use crate::plugins::{setup_plugins, setup_plugins_spec, BuildProfile, Plugin};

verus! {

/// Where the setup hook stands, as seen from outside it.
#[derive(Clone, Copy, Debug, PartialEq, Eq, Structural)]
pub enum SetupStatus {
    /// Not run yet, or still attaching plugins.
    Pending,
    /// Every plugin was attached.
    Succeeded,
    /// A plugin could not be attached; the hook reports failure.
    Failed,
}

/// What the setup hook does next.
#[derive(Clone, Copy, Debug, PartialEq, Eq, Structural)]
pub enum SetupStep {
    /// Attach this plugin to the running application.
    Attach(Plugin),
    /// Return success to the framework.
    Succeed,
    /// Return failure to the framework: this plugin could not be attached.
    Fail(Plugin),
}

/// The setup hook's progress: the plugins it is to attach, how many were
/// attached, and whether the last attempt failed.
pub struct SetupRun {
    plugins: Vec<Plugin>,
    attached: usize,
    failed: bool,
}

/// The abstract state of a setup hook.
pub struct SetupModel {
    pub plugins: Seq<Plugin>,
    pub attached: nat,
    pub failed: bool,
}

impl SetupModel {
    pub open spec fn wf(self) -> bool {
        &&& self.attached <= self.plugins.len()
        &&& self.failed ==> self.attached < self.plugins.len()
    }

    pub open spec fn next_step(self) -> SetupStep {
        if self.failed {
            SetupStep::Fail(self.plugins[self.attached as int])
        } else if self.attached < self.plugins.len() {
            SetupStep::Attach(self.plugins[self.attached as int])
        } else {
            SetupStep::Succeed
        }
    }

    pub open spec fn status(self) -> SetupStatus {
        if self.failed {
            SetupStatus::Failed
        } else if self.attached == self.plugins.len() {
            SetupStatus::Succeeded
        } else {
            SetupStatus::Pending
        }
    }

    /// The state after the framework reports whether the pending attachment worked.
    pub open spec fn after_attempt(self, ok: bool) -> SetupModel {
        if ok {
            SetupModel { attached: self.attached + 1, ..self }
        } else {
            SetupModel { failed: true, ..self }
        }
    }

    /// The state after `n` attachments that all succeeded.
    pub open spec fn after_successes(self, n: nat) -> SetupModel
        decreases n,
    {
        if n == 0 {
            self
        } else {
            self.after_successes((n - 1) as nat).after_attempt(true)
        }
    }
}

proof fn lemma_after_successes(m: SetupModel, n: nat)
    requires
        n <= m.plugins.len(),
    ensures
        m.after_successes(n) == (SetupModel { attached: m.attached + n, ..m }),
    decreases n,
{
    if n > 0 {
        lemma_after_successes(m, (n - 1) as nat);
    }
}

/// A setup hook that has not run asks to attach its plugins one by one, in
/// order; when every attachment succeeds it reports success and nothing else.
pub proof fn lemma_setup_attaches_in_order(m: SetupModel)
    requires
        m.wf(),
        m.attached == 0,
        !m.failed,
    ensures
        forall|i: nat|
            i < m.plugins.len() ==> (#[trigger] m.after_successes(i)).wf() && m.after_successes(
                i,
            ).next_step() == SetupStep::Attach(m.plugins[i as int]),
        m.after_successes(m.plugins.len()).wf(),
        m.after_successes(m.plugins.len()).next_step() == SetupStep::Succeed,
        m.after_successes(m.plugins.len()).status() == SetupStatus::Succeeded,
{
    assert forall|i: nat| i < m.plugins.len() implies (#[trigger] m.after_successes(i)).wf()
        && m.after_successes(i).next_step() == SetupStep::Attach(m.plugins[i as int]) by {
        lemma_after_successes(m, i);
    }
    lemma_after_successes(m, m.plugins.len());
}

impl View for SetupRun {
    type V = SetupModel;

    closed spec fn view(&self) -> SetupModel {
        SetupModel { plugins: self.plugins@, attached: self.attached as nat, failed: self.failed }
    }
}

impl SetupRun {
    /// The setup hook of a build with the given profile, before it has run.
    pub fn new(profile: BuildProfile) -> (r: SetupRun)
        ensures
            r@.wf(),
            r@.plugins == setup_plugins_spec(profile),
            r@.attached == 0,
            !r@.failed,
    {
        SetupRun { plugins: setup_plugins(profile), attached: 0, failed: false }
    }

    pub fn next_step(&self) -> (r: SetupStep)
        requires
            self@.wf(),
        ensures
            r == self@.next_step(),
    {
        if self.failed {
            SetupStep::Fail(self.plugins[self.attached])
        } else if self.attached < self.plugins.len() {
            SetupStep::Attach(self.plugins[self.attached])
        } else {
            SetupStep::Succeed
        }
    }

    /// Records whether the attachment that `next_step` asked for succeeded.
    pub fn record_attempt(&mut self, ok: bool)
        requires
            old(self)@.wf(),
            old(self)@.next_step() is Attach,
        ensures
            final(self)@ == old(self)@.after_attempt(ok),
            final(self)@.wf(),
            !ok ==> final(self)@.status() == SetupStatus::Failed,
            !ok ==> final(self)@.next_step() == SetupStep::Fail(old(self)@.next_step()->Attach_0),
    {
        if ok {
            let n: usize = self.plugins.len();
            assert(self.attached < n);
            self.attached = self.attached + 1;
        } else {
            self.failed = true;
        }
    }

    pub fn status(&self) -> (r: SetupStatus)
        requires
            self@.wf(),
        ensures
            r == self@.status(),
    {
        if self.failed {
            SetupStatus::Failed
        } else if self.attached == self.plugins.len() {
            SetupStatus::Succeeded
        } else {
            SetupStatus::Pending
        }
    }
}

} // verus!
