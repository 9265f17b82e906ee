//! Process supervisor: from a located bundle directory to a running server.
//!
//! A start attempt is a short state machine. It first demands a probe of the
//! entry file inside the bundle directory; a missing entry fails the attempt
//! at once, and in that state the runtime locator is never consulted. With
//! the entry present it demands a runtime path; with one supplied it hands
//! the embedding program the exact command to spawn — runtime binary,
//! entry file as the single argument, the bundle directory as working
//! directory, the fixed port and hostname in the environment, both standard
//! streams piped. The spawn's outcome moves the attempt to running or
//! failed. Every failure is an explicit kind; none aborts the embedder.

use vstd::prelude::*;

use crate::paths::{join, spec_join};
use crate::registry::ProcessHandle;

verus! {

/// The entry file the runtime is started with, inside the bundle directory.
pub open spec fn entry_file_of(bundle_dir: Seq<char>) -> Seq<char> {
    spec_join(bundle_dir, "server.js"@)
}

/// The environment additions every spawn carries: the fixed port and
/// hostname the server must listen on.
pub open spec fn spawn_env_spec() -> Seq<(Seq<char>, Seq<char>)> {
    seq![("PORT"@, "1234"@), ("HOSTNAME"@, "localhost"@)]
}

/// The views of a list of string pairs.
pub open spec fn env_views(v: Seq<(String, String)>) -> Seq<(Seq<char>, Seq<char>)> {
    v.map_values(|p: (String, String)| (p.0@, p.1@))
}

/// Why a start attempt failed. Each failure leaves the embedder running;
/// none is retried.
#[derive(Clone, Copy, Debug, PartialEq, Eq, Structural)]
pub enum StartFailure {
    /// No candidate bundle directory exists.
    BundleNotFound,
    /// The bundle directory exists but holds no entry file.
    EntryMissing,
    /// No runtime binary was found anywhere.
    RuntimeNotFound,
    /// The operating system refused to create the process.
    SpawnFailed,
}

/// The command a start attempt asks the embedding program to spawn.
pub struct SpawnCommand {
    /// The runtime binary to invoke.
    pub program: String,
    /// Its single argument: the entry file's path.
    pub arg: String,
    /// The working directory of the child: the bundle directory.
    pub working_dir: String,
    /// Environment variables to add, name and value each.
    pub env: Vec<(String, String)>,
}

impl SpawnCommand {
    /// The command that starts the server of `bundle_dir` with the runtime
    /// at `runtime`: entry file as the argument, bundle directory as working
    /// directory, the fixed environment additions.
    pub open spec fn is_for(self, runtime: Seq<char>, bundle_dir: Seq<char>) -> bool {
        &&& self.program@ == runtime
        &&& self.arg@ == entry_file_of(bundle_dir)
        &&& self.working_dir@ == bundle_dir
        &&& env_views(self.env@) == spawn_env_spec()
    }
}

/// Where a start attempt stands. `CheckEntry`, `LocateRuntime` and `Spawn`
/// are the phases of starting; `Failed` and `Running` are terminal.
pub enum StartPhase {
    /// The embedding program must probe the entry file for existence.
    CheckEntry,
    /// The embedding program must run the runtime locator.
    LocateRuntime,
    /// The embedding program must spawn this command.
    Spawn(SpawnCommand),
    /// The attempt failed; nothing was started.
    Failed(StartFailure),
    /// The server runs as the process this handle names.
    Running(ProcessHandle),
}

/// One attempt to start the server from a located bundle directory.
pub struct StartPlan {
    bundle_dir: String,
    phase: StartPhase,
}

impl StartPlan {
    /// The bundle directory this attempt starts from.
    pub closed spec fn bundle(self) -> Seq<char> {
        self.bundle_dir@
    }

    /// Where the attempt stands.
    pub closed spec fn phase_of(self) -> StartPhase {
        self.phase
    }

    /// Begins a start attempt from `bundle_dir`, awaiting the entry-file
    /// probe.
    pub fn new(bundle_dir: String) -> (r: StartPlan)
        ensures
            r.bundle() == bundle_dir@,
            r.phase_of() is CheckEntry,
    {
        StartPlan { bundle_dir, phase: StartPhase::CheckEntry }
    }

    /// The entry file whose existence decides the attempt's first phase.
    pub fn entry_file(&self) -> (r: String)
        ensures
            r@ == entry_file_of(self.bundle()),
    {
        join(self.bundle_dir.as_str(), "server.js")
    }

    /// Reports whether the entry file exists. A missing entry fails the
    /// attempt at once — the runtime locator is never consulted for it.
    /// Outside the entry-check phase this is a no-op.
    pub fn on_entry_check(&mut self, entry_exists: bool)
        ensures
            final(self).bundle() == old(self).bundle(),
            old(self).phase_of() is CheckEntry ==> {
                &&& (entry_exists ==> final(self).phase_of() is LocateRuntime)
                &&& (!entry_exists ==> final(self).phase_of() == StartPhase::Failed(
                    StartFailure::EntryMissing,
                ))
            },
            !(old(self).phase_of() is CheckEntry) ==> *final(self) == *old(self),
    {
        match self.phase {
            StartPhase::CheckEntry => {
                if entry_exists {
                    self.phase = StartPhase::LocateRuntime;
                } else {
                    self.phase = StartPhase::Failed(StartFailure::EntryMissing);
                }
            },
            _ => {},
        }
    }

    /// Reports what the runtime locator found. No runtime fails the
    /// attempt; a runtime path yields the exact command to spawn. Outside
    /// the locate-runtime phase this is a no-op.
    pub fn on_runtime(&mut self, runtime: Option<String>)
        ensures
            final(self).bundle() == old(self).bundle(),
            old(self).phase_of() is LocateRuntime ==> match runtime {
                None => final(self).phase_of() == StartPhase::Failed(StartFailure::RuntimeNotFound),
                Some(p) => final(self).phase_of() matches StartPhase::Spawn(cmd) && cmd.is_for(
                    p@,
                    old(self).bundle(),
                ),
            },
            !(old(self).phase_of() is LocateRuntime) ==> *final(self) == *old(self),
    {
        match self.phase {
            StartPhase::LocateRuntime => {
                match runtime {
                    None => {
                        self.phase = StartPhase::Failed(StartFailure::RuntimeNotFound);
                    },
                    Some(p) => {
                        let arg = join(self.bundle_dir.as_str(), "server.js");
                        let mut env: Vec<(String, String)> = Vec::new();
                        env.push(("PORT".to_owned(), "1234".to_owned()));
                        env.push(("HOSTNAME".to_owned(), "localhost".to_owned()));
                        let cmd = SpawnCommand {
                            program: p,
                            arg,
                            working_dir: self.bundle_dir.clone(),
                            env,
                        };
                        proof {
                            assert(env_views(cmd.env@) =~= spawn_env_spec());
                        }
                        self.phase = StartPhase::Spawn(cmd);
                    },
                }
            },
            _ => {},
        }
    }

    /// Reports the spawn's outcome: the child's process identifier, or
    /// nothing when the operating system refused. Outside the spawn phase
    /// this is a no-op.
    pub fn on_spawn_result(&mut self, pid: Option<u32>)
        ensures
            final(self).bundle() == old(self).bundle(),
            old(self).phase_of() is Spawn ==> match pid {
                None => final(self).phase_of() == StartPhase::Failed(StartFailure::SpawnFailed),
                Some(p) => final(self).phase_of() == StartPhase::Running(
                    ProcessHandle { pid: p },
                ),
            },
            !(old(self).phase_of() is Spawn) ==> *final(self) == *old(self),
    {
        match self.phase {
            StartPhase::Spawn(_) => {
                match pid {
                    None => {
                        self.phase = StartPhase::Failed(StartFailure::SpawnFailed);
                    },
                    Some(p) => {
                        self.phase = StartPhase::Running(ProcessHandle { pid: p });
                    },
                }
            },
            _ => {},
        }
    }

    /// The command to spawn, while the attempt awaits its spawn.
    pub fn spawn_command(&self) -> (r: Option<&SpawnCommand>)
        ensures
            match self.phase_of() {
                StartPhase::Spawn(cmd) => r matches Some(c) && *c == cmd,
                _ => r is None,
            },
    {
        match &self.phase {
            StartPhase::Spawn(cmd) => Some(cmd),
            _ => None,
        }
    }

    /// Whether the attempt awaits the entry-file probe.
    pub fn needs_entry_check(&self) -> (r: bool)
        ensures
            r == self.phase_of() is CheckEntry,
    {
        match self.phase {
            StartPhase::CheckEntry => true,
            _ => false,
        }
    }

    /// Whether the attempt awaits the runtime locator.
    pub fn needs_runtime(&self) -> (r: bool)
        ensures
            r == self.phase_of() is LocateRuntime,
    {
        match self.phase {
            StartPhase::LocateRuntime => true,
            _ => false,
        }
    }

    /// How the attempt failed, once it has.
    pub fn failure(&self) -> (r: Option<StartFailure>)
        ensures
            match self.phase_of() {
                StartPhase::Failed(f) => r == Some(f),
                _ => r is None,
            },
    {
        match self.phase {
            StartPhase::Failed(f) => Some(f),
            _ => None,
        }
    }

    /// The handle of the running server, once it runs.
    pub fn handle(&self) -> (r: Option<ProcessHandle>)
        ensures
            match self.phase_of() {
                StartPhase::Running(h) => r == Some(h),
                _ => r is None,
            },
    {
        match self.phase {
            StartPhase::Running(h) => Some(h),
            _ => None,
        }
    }
}

/// Takes the bundle locator's finding and opens a start attempt, or fails
/// the whole startup at once: with no bundle directory the supervisor is
/// never entered and the one failure is `BundleNotFound`.
pub fn begin_startup(bundle_dir: Option<String>) -> (r: Result<StartPlan, StartFailure>)
    ensures
        bundle_dir is None ==> r == Err::<StartPlan, StartFailure>(StartFailure::BundleNotFound),
        bundle_dir matches Some(d) ==> r matches Ok(plan) && plan.bundle() == d@
            && plan.phase_of() is CheckEntry,
{
    match bundle_dir {
        Some(d) => Ok(StartPlan::new(d)),
        None => Err(StartFailure::BundleNotFound),
    }
}

} // verus!
