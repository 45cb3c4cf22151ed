//! The sidecar process supervisor: a state machine over the startup and
//! shutdown of one supervised child process.
//!
//! The supervisor itself performs no I/O. The host shell resolves the data
//! directory, probes the port, spawns and kills the child, and reports every
//! outcome back; the functions here decide what to do next and keep the one
//! stored child handle consistent. Taking the handle out of the state and
//! killing it are a single step, so a child is killed at most once even when
//! shutdown is triggered twice.

use vstd::prelude::*;

verus! {

use vstd::string::StringExecFns;

/// The fixed loopback address the backend serves on.
pub const BACKEND_ADDR: &'static str = "127.0.0.1:8090";

/// The fixed port of `BACKEND_ADDR`, for the availability probe.
pub const BACKEND_PORT: u16 = 8090;

/// Where one supervised process stands in its lifecycle.
#[derive(Clone, Copy, PartialEq, Eq, Structural, Debug)]
pub enum Phase {
    /// Nothing has happened yet.
    Idle,
    /// The port was taken, so no child was spawned; startup still succeeds.
    Skipped,
    /// The preconditions held and the host was asked to spawn the child.
    Spawning,
    /// Startup failed fatally: the data directory or the spawn itself failed.
    Failed,
    /// A child is alive and its handle is stored.
    Running,
    /// The handle was taken out of the state and the kill was issued.
    Terminating,
    /// The kill succeeded.
    Stopped,
    /// The kill failed; shutdown proceeds regardless.
    StoppedWithError,
}

/// The supervisor's state: its phase, and the stored handle of the live
/// child, identified by its process id.
#[derive(Clone, Copy, PartialEq, Eq, Structural, Debug)]
pub struct Supervisor {
    pub phase: Phase,
    pub child: Option<u32>,
}

/// What the startup hook must do next.
pub enum StartupStep {
    /// The data directory could not be prepared: abort startup with this
    /// diagnostic. No spawn is attempted.
    FatalDirectory(String),
    /// The port is already taken: spawn nothing, report startup success.
    SkippedPortBusy,
    /// Spawn the backend with exactly these arguments.
    SpawnRequested(Vec<String>),
}

/// What the shutdown hook must do next.
#[derive(Clone, Copy, PartialEq, Eq, Structural, Debug)]
pub enum KillAction {
    /// Exactly one caller took the stored handle: kill this child.
    KillChild(u32),
    /// No handle was stored: make no operating-system call.
    NothingToCleanUp,
}

/// The argument list the backend is spawned with:
/// `serve --http 127.0.0.1:8090 --dir <data_dir>`.
pub open spec fn is_spawn_args(args: Seq<String>, dir: Seq<char>) -> bool {
    &&& args.len() == 5
    &&& args[0]@ == "serve"@
    &&& args[1]@ == "--http"@
    &&& args[2]@ == "127.0.0.1:8090"@
    &&& args[3]@ == "--dir"@
    &&& args[4]@ == dir
}

/// What one kill step does: take the stored handle if there is one, and ask
/// for exactly that child to be killed; otherwise change nothing and ask for
/// no operating-system call.
pub open spec fn spec_kill(s: Supervisor) -> (Supervisor, KillAction) {
    match s.child {
        Option::Some(pid) => (
            Supervisor { phase: Phase::Terminating, child: Option::None },
            KillAction::KillChild(pid),
        ),
        Option::None => (s, KillAction::NothingToCleanUp),
    }
}

impl Supervisor {
    /// A handle is stored exactly while a child is running.
    pub open spec fn wf(self) -> bool {
        self.child is Some <==> self.phase == Phase::Running
    }

    /// A fresh supervisor: idle, with no stored handle.
    pub fn new() -> (s: Supervisor)
        ensures
            s.phase == Phase::Idle,
            s.child is None,
            s.wf(),
    {
        Supervisor { phase: Phase::Idle, child: Option::None }
    }

    /// The startup decision. `data_dir` is the host's attempt to resolve and
    /// create the application data directory; `port_free` is the probe's
    /// answer for the backend port. A directory failure is fatal and spawns
    /// nothing; a busy port skips the spawn and is not an error; otherwise
    /// the spawn is requested with the fixed argument list.
    pub fn start(&mut self, data_dir: Result<String, String>, port_free: bool) -> (step:
        StartupStep)
        requires
            old(self).phase == Phase::Idle,
            old(self).wf(),
        ensures
            final(self).wf(),
            final(self).child is None,
            match data_dir {
                Result::Err(e) => {
                    &&& final(self).phase == Phase::Failed
                    &&& step matches StartupStep::FatalDirectory(m) && m@ == e@
                },
                Result::Ok(d) => if port_free {
                    &&& final(self).phase == Phase::Spawning
                    &&& step matches StartupStep::SpawnRequested(args) && is_spawn_args(
                        args@,
                        d@,
                    )
                } else {
                    &&& final(self).phase == Phase::Skipped
                    &&& step matches StartupStep::SkippedPortBusy
                },
            },
    {
        match data_dir {
            Result::Err(e) => {
                self.phase = Phase::Failed;
                StartupStep::FatalDirectory(e)
            },
            Result::Ok(d) => {
                if port_free {
                    self.phase = Phase::Spawning;
                    StartupStep::SpawnRequested(build_spawn_args(d))
                } else {
                    self.phase = Phase::Skipped;
                    StartupStep::SkippedPortBusy
                }
            },
        }
    }

    /// The host spawned the child: store its handle. The handle slot is
    /// empty here, so no live handle is ever overwritten.
    pub fn spawn_succeeded(&mut self, pid: u32)
        requires
            old(self).phase == Phase::Spawning,
            old(self).wf(),
        ensures
            final(self).phase == Phase::Running,
            final(self).child == Option::Some(pid),
            final(self).wf(),
    {
        self.phase = Phase::Running;
        self.child = Option::Some(pid);
    }

    /// The spawn failed: fatal to startup, nothing is stored.
    pub fn spawn_failed(&mut self)
        requires
            old(self).phase == Phase::Spawning,
            old(self).wf(),
        ensures
            final(self).phase == Phase::Failed,
            final(self).child is None,
            final(self).wf(),
    {
        self.phase = Phase::Failed;
    }

    /// The shutdown decision: take the stored handle, if any, in the same
    /// step that decides the action. Exactly one caller can observe the
    /// handle; with none stored this is a no-op that asks for no
    /// operating-system call and reports success.
    pub fn kill(&mut self) -> (action: KillAction)
        ensures
            (*final(self), action) == spec_kill(*old(self)),
            old(self).wf() ==> final(self).wf(),
    {
        match self.child {
            Option::Some(pid) => {
                self.child = Option::None;
                self.phase = Phase::Terminating;
                KillAction::KillChild(pid)
            },
            Option::None => KillAction::NothingToCleanUp,
        }
    }

    /// The host issued the kill and reports its outcome. Either way the
    /// shutdown completes; a failure is only recorded, never re-raised.
    pub fn kill_finished(&mut self, ok: bool)
        requires
            old(self).phase == Phase::Terminating,
            old(self).wf(),
        ensures
            final(self).phase == (if ok {
                Phase::Stopped
            } else {
                Phase::StoppedWithError
            }),
            final(self).child is None,
            final(self).wf(),
    {
        if ok {
            self.phase = Phase::Stopped;
        } else {
            self.phase = Phase::StoppedWithError;
        }
    }
}

/// Builds the backend's argument list for the given data directory.
pub fn build_spawn_args(data_dir: String) -> (args: Vec<String>)
    ensures
        is_spawn_args(args@, data_dir@),
{
    let mut args: Vec<String> = Vec::new();
    args.push(String::from_str("serve"));
    args.push(String::from_str("--http"));
    args.push(String::from_str(BACKEND_ADDR));
    args.push(String::from_str("--dir"));
    args.push(data_dir);
    args
}

/// Killing is idempotent: once one kill step has taken the handle, a second
/// kill step observes no handle, changes nothing, and asks for no
/// operating-system call — whatever state the first step started from.
pub proof fn lemma_kill_idempotent(s: Supervisor)
    ensures
        ({
            let (s1, a1) = spec_kill(s);
            let (s2, a2) = spec_kill(s1);
            &&& a2 == KillAction::NothingToCleanUp
            &&& s2 == s1
        }),
{
}

/// A kill before any spawn stored a handle — the supervisor still idle — is
/// a no-op: the state is unchanged and no operating-system call is asked
/// for.
pub proof fn lemma_kill_idle_noop(s: Supervisor)
    requires
        s.wf(),
        s.phase == Phase::Idle,
    ensures
        spec_kill(s) == (s, KillAction::NothingToCleanUp),
{
}

} // verus!
