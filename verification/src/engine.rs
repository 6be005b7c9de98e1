//! The execution engine: the committed step sequence that spawns a root
//! shell for an allowed request, and the relay loop that serves an
//! interactive session.
//!
//! The engine itself does not touch the operating system. It fixes the
//! plan — namespace placement first, then the fork, then the strictly
//! ordered identity switch (supplementary groups, then group id, then
//! user id), the security label, the terminal or stdio wiring, and the
//! final exec — and tracks the surrounding process's progress through it.
//! A failure at any step aborts the whole request: the run reports a
//! failure status to the client, and if a child was already created it
//! must be killed, so no process is left running with partial (root)
//! credentials.

use crate::policy::SuPolicy;
use crate::request::{SuRequest, SuRequestView};
use crate::EXEC_NOT_STARTED;
use vstd::prelude::*;

verus! {

/// The mount-namespace visibility of one execution, fixed before the
/// process is placed: the daemon's global view, the requesting client's
/// view, or a private isolated one.
#[derive(Clone, Copy, Debug, PartialEq, Eq, Structural)]
pub enum MntNsMode {
    Global,
    Requester,
    Isolate,
}

/// One commit point of an execution. The data each step works on (the
/// group list, the label, the shell and command strings) is read from the
/// request the run was started with.
#[derive(Clone, Copy, Debug, PartialEq, Eq, Structural)]
pub enum ExecStep {
    AttachNamespace { mode: MntNsMode, requester_pid: i32 },
    ForkChild,
    SetGroups,
    SetGid(i32),
    SetUid(i32),
    SetLabel,
    WirePty,
    WireStdio,
    /// Exec the requested shell: interactively when no command was
    /// supplied and this is a login session, otherwise with the command
    /// as its argument; `keep_env` governs whether the environment is
    /// preserved or a minimal one is built.
    ExecShell { interactive: bool, keep_env: bool },
}

/// The action an aborted run owes the operating system.
#[derive(Clone, Copy, Debug, PartialEq, Eq, Structural)]
pub enum CleanupAction {
    KillChild,
}

/// The fixed step sequence for one execution of request `v`: resolve the
/// namespace, create the child in it, switch its identity in strict
/// order (supplementary groups, then group id, then user id), apply the
/// security label, wire a pseudo-terminal for a login session or the
/// passed-through stdio otherwise, and exec the shell — interactively
/// exactly when no command was supplied and `login` is set.
pub open spec fn spec_execution_plan(v: SuRequestView, client_pid: i32, mode: MntNsMode) -> Seq<
    ExecStep,
> {
    seq![
        ExecStep::AttachNamespace { mode, requester_pid: client_pid },
        ExecStep::ForkChild,
        ExecStep::SetGroups,
        ExecStep::SetGid(v.target_uid),
        ExecStep::SetUid(v.target_uid),
        ExecStep::SetLabel,
        if v.login {
            ExecStep::WirePty
        } else {
            ExecStep::WireStdio
        },
        ExecStep::ExecShell {
            interactive: v.command.len() == 0 && v.login,
            keep_env: v.keep_env,
        },
    ]
}

/// Whether execution may start at all: only an explicit Allow gates the
/// engine; Deny (and the never-final Query sentinel) never spawns.
pub fn execution_allowed(d: SuPolicy) -> (r: bool)
    ensures
        r == (d == SuPolicy::Allow),
{
    matches!(d, SuPolicy::Allow)
}

/// Build the step sequence for `req` on behalf of `client_pid`.
pub fn execution_plan(req: &SuRequest, client_pid: i32, mode: MntNsMode) -> (r: Vec<ExecStep>)
    ensures
        r@ == spec_execution_plan(req@, client_pid, mode),
{
    let mut out: Vec<ExecStep> = Vec::new();
    out.push(ExecStep::AttachNamespace { mode, requester_pid: client_pid });
    out.push(ExecStep::ForkChild);
    out.push(ExecStep::SetGroups);
    out.push(ExecStep::SetGid(req.target_uid));
    out.push(ExecStep::SetUid(req.target_uid));
    out.push(ExecStep::SetLabel);
    if req.login {
        out.push(ExecStep::WirePty);
    } else {
        out.push(ExecStep::WireStdio);
    }
    out.push(
        ExecStep::ExecShell {
            interactive: req.command.as_str().is_empty() && req.login,
            keep_env: req.keep_env,
        },
    );
    proof {
        assert(out@ =~= spec_execution_plan(req@, client_pid, mode));
    }
    out
}

/// Credential-transition ordering: in every plan the supplementary-group
/// list is applied before the group id, and the group id before the user
/// id. The user id is never switched ahead of the group list, since a
/// process that has already dropped to the target uid may no longer be
/// able to complete the group change.
pub proof fn lemma_groups_before_uid(v: SuRequestView, client_pid: i32, mode: MntNsMode)
    ensures
        ({
            let p = spec_execution_plan(v, client_pid, mode);
            &&& forall|i: int, j: int|
                0 <= i < p.len() && 0 <= j < p.len() && p[i] is SetGid && p[j] is SetGroups ==> j
                    < i
            &&& forall|i: int, j: int|
                0 <= i < p.len() && 0 <= j < p.len() && p[i] is SetUid && p[j] is SetGid ==> j < i
            &&& forall|i: int, j: int|
                0 <= i < p.len() && 0 <= j < p.len() && p[i] is SetUid && p[j] is SetGroups ==> j
                    < i
        }),
{
}

/// One run of the execution engine: the plan, how far the surrounding
/// process has committed it, and whether a step failed.
pub struct EngineRun {
    pub steps: Vec<ExecStep>,
    pub pos: usize,
    pub failed: bool,
}

impl EngineRun {
    pub open spec fn wf(&self) -> bool {
        self.pos <= self.steps@.len()
    }

    /// Whether a child process exists: the fork step (position 1 of the
    /// plan) has been committed.
    pub open spec fn child_exists(&self) -> bool {
        self.pos >= 2
    }

    /// Whether the user id has been switched: the step after SetUid
    /// (position 4) has been passed.
    pub open spec fn uid_switched(&self) -> bool {
        self.pos >= 5
    }

    /// Whether the supplementary-group list has been applied.
    pub open spec fn groups_applied(&self) -> bool {
        self.pos >= 3
    }

    /// Start a run for an allowed request.
    pub fn start(req: &SuRequest, client_pid: i32, mode: MntNsMode) -> (r: EngineRun)
        ensures
            r.wf(),
            r.steps@ == spec_execution_plan(req@, client_pid, mode),
            r.pos == 0,
            !r.failed,
    {
        EngineRun { steps: execution_plan(req, client_pid, mode), pos: 0, failed: false }
    }

    /// The next step the surrounding process must perform, or `None`
    /// when the run is complete or aborted.
    pub fn next_step(&self) -> (r: Option<ExecStep>)
        requires
            self.wf(),
        ensures
            r == if !self.failed && self.pos < self.steps@.len() {
                Some(self.steps@[self.pos as int])
            } else {
                None::<ExecStep>
            },
    {
        if !self.failed && self.pos < self.steps.len() {
            Some(self.steps[self.pos])
        } else {
            None
        }
    }

    /// Record the outcome of the step last handed out. Success commits
    /// it; failure aborts the run at that point, with no silent partial
    /// rollback.
    pub fn report(&mut self, ok: bool)
        requires
            old(self).wf(),
            !old(self).failed,
            old(self).pos < old(self).steps@.len(),
        ensures
            final(self).wf(),
            final(self).steps == old(self).steps,
            ok ==> final(self).pos == old(self).pos + 1 && !final(self).failed,
            !ok ==> final(self).pos == old(self).pos && final(self).failed,
    {
        if ok {
            let n = self.steps.len();
            assert(self.pos < n);
            self.pos = self.pos + 1;
        } else {
            self.failed = true;
        }
    }

    /// What an aborted run owes: a child that was already created must
    /// be killed, so it is never left running with partial credentials.
    pub fn cleanup(&self) -> (r: Option<CleanupAction>)
        ensures
            r == if self.failed && self.child_exists() {
                Some(CleanupAction::KillChild)
            } else {
                None::<CleanupAction>
            },
    {
        if self.failed && self.pos >= 2 {
            Some(CleanupAction::KillChild)
        } else {
            None
        }
    }

    /// The exit status reported back over the channel: the child's own
    /// status when every step committed, and the "execution never
    /// started" failure sentinel otherwise.
    pub fn status(&self, child_status: i32) -> (r: i32)
        requires
            self.wf(),
        ensures
            r == if !self.failed && self.pos == self.steps@.len() {
                child_status
            } else {
                EXEC_NOT_STARTED
            },
    {
        if !self.failed && self.pos == self.steps.len() {
            child_status
        } else {
            EXEC_NOT_STARTED
        }
    }
}

/// In any run the user id is switched only after the supplementary-group
/// list is applied, whatever interleaving of successes and failures the
/// surrounding process reported: progress is committed one step at a
/// time, in plan order.
pub proof fn lemma_run_order_invariant(run: EngineRun)
    requires
        run.wf(),
    ensures
        run.uid_switched() ==> run.groups_applied(),
{
}

// ----------------------------------------------------------------------
// The interactive-session relay
// ----------------------------------------------------------------------

/// The relay that pumps data between the client's descriptors and the
/// child's pseudo-terminal for a login session.
#[derive(Clone, Copy, Debug, PartialEq, Eq, Structural)]
pub enum RelayState {
    /// Both ends are live; data is forwarded in both directions.
    Pumping,
    /// The client disconnected; the child's terminal session has been
    /// told to terminate and the relay waits to reap the child.
    Draining,
    /// The child has exited and been reaped; the session is over.
    Done,
}

/// What the relay observes.
#[derive(Clone, Copy, Debug, PartialEq, Eq, Structural)]
pub enum RelayEvent {
    ClientData,
    ChildData,
    ClientEof,
    ChildExited,
}

/// What the relay does in response.
#[derive(Clone, Copy, Debug, PartialEq, Eq, Structural)]
pub enum RelayAction {
    ForwardToChild,
    ForwardToClient,
    /// Signal the child's terminal session to terminate.
    TerminateChildSession,
    /// Reap the exited child and release the terminal descriptor.
    ReapChild,
    Ignore,
}

/// The relay transition function: on client end-of-stream the child's
/// terminal session is terminated and the relay drains until it can reap
/// the child; a child exit is always followed by the reap.
pub open spec fn spec_relay_step(s: RelayState, e: RelayEvent) -> (RelayState, RelayAction) {
    match (s, e) {
        (RelayState::Pumping, RelayEvent::ClientData) => (
            RelayState::Pumping,
            RelayAction::ForwardToChild,
        ),
        (RelayState::Pumping, RelayEvent::ChildData) => (
            RelayState::Pumping,
            RelayAction::ForwardToClient,
        ),
        (RelayState::Pumping, RelayEvent::ClientEof) => (
            RelayState::Draining,
            RelayAction::TerminateChildSession,
        ),
        (RelayState::Pumping, RelayEvent::ChildExited) => (RelayState::Done, RelayAction::ReapChild),
        (RelayState::Draining, RelayEvent::ChildExited) => (
            RelayState::Done,
            RelayAction::ReapChild,
        ),
        (RelayState::Draining, _) => (RelayState::Draining, RelayAction::Ignore),
        (RelayState::Done, _) => (RelayState::Done, RelayAction::Ignore),
    }
}

/// A child exit is always answered with the reap, from either live
/// state, so neither the child process nor its terminal descriptor can
/// leak past the end of a session.
pub proof fn lemma_relay_child_exit_reaps(s: RelayState)
    ensures
        s != RelayState::Done ==> spec_relay_step(s, RelayEvent::ChildExited) == (
            RelayState::Done,
            RelayAction::ReapChild,
        ),
{
}

/// Step the relay on one observed event.
pub fn relay_step(s: RelayState, e: RelayEvent) -> (r: (RelayState, RelayAction))
    ensures
        r == spec_relay_step(s, e),
{
    match (s, e) {
        (RelayState::Pumping, RelayEvent::ClientData) => (
            RelayState::Pumping,
            RelayAction::ForwardToChild,
        ),
        (RelayState::Pumping, RelayEvent::ChildData) => (
            RelayState::Pumping,
            RelayAction::ForwardToClient,
        ),
        (RelayState::Pumping, RelayEvent::ClientEof) => (
            RelayState::Draining,
            RelayAction::TerminateChildSession,
        ),
        (RelayState::Pumping, RelayEvent::ChildExited) => (
            RelayState::Done,
            RelayAction::ReapChild,
        ),
        (RelayState::Draining, RelayEvent::ChildExited) => (
            RelayState::Done,
            RelayAction::ReapChild,
        ),
        (RelayState::Draining, _) => (RelayState::Draining, RelayAction::Ignore),
        (RelayState::Done, _) => (RelayState::Done, RelayAction::Ignore),
    }
}

} // verus!
