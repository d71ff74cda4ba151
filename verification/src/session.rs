//! Shared session state and the supervisor's start/stop policies.
//!
//! The state holds at most one live worker at a time; the workload id and
//! credential are set and cleared together with the worker handle, the
//! provisioning flags only ever go from false to true, and the log buffer
//! stays within its capacity.  The host owns the real process handle and
//! reports polls and spawn outcomes; the state tracks the handle by id.

use vstd::prelude::*;
use crate::Platform;
use crate::device::spec_has_accelerator;
use crate::device::select_device;
use crate::logbuf::LogBuffer;
use crate::logbuf::ring_push;
use crate::worker::{
    spec_wsl_seeder_command, wsl_seeder_command, spec_seeder_args, seeder_args,
    sandbox_script_path, remove_incompatible_library_command, spec_process_pattern_command,
    sandbox_term_command, sandbox_probe_command, sandbox_force_kill_command, PollResult,
};

verus! {

/// How many recent log lines the session keeps.
pub open spec fn log_capacity() -> int {
    200
}

/// The process-wide session state behind the supervisor and the query
/// commands.
pub struct PetalsState {
    /// The supervised worker handle, tracked by the host's process id;
    /// `None` when idle.
    pub process: Option<u64>,
    /// The workload the worker serves; set and cleared with `process`.
    pub model_name: Option<String>,
    /// The credential the worker runs under; set and cleared with
    /// `process`.
    pub node_token: Option<String>,
    /// The sandbox-path provisioning workflow finished.
    pub wsl_setup_complete: bool,
    /// The container-path provisioning workflow finished.
    pub macos_setup_complete: bool,
    /// The bounded ring of recent worker output lines.
    pub seeder_logs: LogBuffer,
}

impl PetalsState {
    /// The session invariant: the workload id and credential are present
    /// exactly when a worker is, and the log ring respects its capacity.
    pub open spec fn wf(self) -> bool {
        (self.process is Some <==> self.model_name is Some) && (self.process is Some
            <==> self.node_token is Some) && self.seeder_logs.wf() && self.seeder_logs.cap
            == log_capacity()
    }

    /// A worker-start gate: the platform's provisioning workflow must have
    /// been marked complete.  The native platform needs no provisioning.
    pub open spec fn provisioned_for(self, platform: Platform) -> bool {
        match platform {
            Platform::Windows => self.wsl_setup_complete,
            Platform::MacOs => self.macos_setup_complete,
            Platform::Linux => true,
        }
    }

    /// A fresh idle session: no worker, nothing provisioned, no logs.
    pub fn new() -> (r: PetalsState)
        ensures
            r.wf(),
            r.process is None,
            r.model_name is None,
            r.node_token is None,
            !r.wsl_setup_complete,
            !r.macos_setup_complete,
            r.seeder_logs.model() =~= Seq::<Seq<char>>::empty(),
    {
        PetalsState {
            process: None,
            model_name: None,
            node_token: None,
            wsl_setup_complete: false,
            macos_setup_complete: false,
            seeder_logs: LogBuffer::with_capacity(200),
        }
    }

    /// The state after marking the sandbox-path workflow complete.
    pub open spec fn with_wsl_marked(self) -> PetalsState {
        PetalsState { wsl_setup_complete: true, ..self }
    }

    /// The state after marking the container-path workflow complete.
    pub open spec fn with_macos_marked(self) -> PetalsState {
        PetalsState { macos_setup_complete: true, ..self }
    }

    /// Record that the sandbox-path provisioning workflow finished.  The
    /// flag only ever moves from false to true.
    pub fn mark_wsl_setup_complete(&mut self)
        requires
            old(self).wf(),
        ensures
            final(self).wf(),
            *final(self) == old(self).with_wsl_marked(),
            final(self).wsl_setup_complete,
    {
        self.wsl_setup_complete = true;
    }

    /// Record that the container-path provisioning workflow finished.
    pub fn mark_macos_setup_complete(&mut self)
        requires
            old(self).wf(),
        ensures
            final(self).wf(),
            *final(self) == old(self).with_macos_marked(),
            final(self).macos_setup_complete,
    {
        self.macos_setup_complete = true;
    }

    /// Non-blocking liveness query.  If the host's poll saw the worker
    /// exit on its own, the stale worker fields are cleared here, so the
    /// query heals the state it reports on.  The answer always agrees with
    /// the state left behind: true exactly when a handle remains.
    pub fn is_petals_seeder_running(&mut self, poll: PollResult) -> (r: bool)
        requires
            old(self).wf(),
        ensures
            final(self).wf(),
            r == (final(self).process is Some),
            old(self).process is None ==> *final(self) == *old(self) && r == false,
            old(self).process is Some && poll == PollResult::Exited ==> final(self).process
                is None && final(self).model_name is None && final(self).node_token is None
                && final(self).seeder_logs == old(self).seeder_logs
                && final(self).wsl_setup_complete == old(self).wsl_setup_complete
                && final(self).macos_setup_complete == old(self).macos_setup_complete && r
                == false,
            old(self).process is Some && poll != PollResult::Exited ==> *final(self) == *old(self)
                && r == true,
    {
        match self.process {
            None => false,
            Some(_) => {
                match poll {
                    PollResult::Exited => {
                        self.process = None;
                        self.model_name = None;
                        self.node_token = None;
                        false
                    },
                    _ => true,
                }
            },
        }
    }

    /// The workload the worker currently serves, healing stale state like
    /// the liveness query does.
    pub fn get_petals_seeder_info(&mut self, poll: PollResult) -> (r: Option<String>)
        requires
            old(self).wf(),
        ensures
            final(self).wf(),
            (r is Some) == (final(self).process is Some),
            (r matches Some(m) ==> (final(self).model_name matches Some(held) && m@ == held@)),
            old(self).process is None ==> *final(self) == *old(self) && r is None,
            old(self).process is Some && poll != PollResult::Exited ==> *final(self) == *old(self)
                && r is Some,
            old(self).process is Some && poll == PollResult::Exited ==> r is None,
    {
        let running = self.is_petals_seeder_running(poll);
        if !running {
            None
        } else {
            match &self.model_name {
                Some(m) => Some(m.clone()),
                None => None,
            }
        }
    }

    /// A snapshot of the recent worker log lines, oldest first.
    pub fn get_petals_seeder_logs(&self) -> (r: Vec<String>)
        ensures
            r.deep_view() =~= self.seeder_logs.model(),
    {
        self.seeder_logs.snapshot()
    }

    /// Append one worker output line to the bounded log ring.
    pub fn record_seeder_line(&mut self, line: String)
        requires
            old(self).wf(),
        ensures
            final(self).wf(),
            final(self).seeder_logs.model() =~= ring_push(
                old(self).seeder_logs.model(),
                line@,
                log_capacity(),
            ),
            final(self).process == old(self).process,
            final(self).model_name == old(self).model_name,
            final(self).node_token == old(self).node_token,
            final(self).wsl_setup_complete == old(self).wsl_setup_complete,
            final(self).macos_setup_complete == old(self).macos_setup_complete,
    {
        self.seeder_logs.push(line);
    }

    /// Commit a successful spawn: the handle, workload and credential are
    /// set together.
    pub fn commit_seeder_start(&mut self, pid: u64, model_name: String, node_token: String)
        requires
            old(self).wf(),
            old(self).process is None,
        ensures
            final(self).wf(),
            *final(self) == (PetalsState {
                process: Some(pid),
                model_name: Some(model_name),
                node_token: Some(node_token),
                ..*old(self)
            }),
    {
        self.process = Some(pid);
        self.model_name = Some(model_name);
        self.node_token = Some(node_token);
    }

    /// Commit a finished shutdown, graceful or forced: the worker fields
    /// and the log ring are always cleared together.
    pub fn commit_seeder_stop(&mut self)
        requires
            old(self).wf(),
        ensures
            final(self).wf(),
            final(self).process is None,
            final(self).model_name is None,
            final(self).node_token is None,
            final(self).seeder_logs.model() =~= Seq::<Seq<char>>::empty(),
            final(self).wsl_setup_complete == old(self).wsl_setup_complete,
            final(self).macos_setup_complete == old(self).macos_setup_complete,
    {
        self.process = None;
        self.model_name = None;
        self.node_token = None;
        self.seeder_logs.clear();
    }
}

/// Law: in any well-formed session the workload id is present exactly when
/// the worker handle is, and so is the credential; the liveness query's
/// answer therefore characterizes both.
pub proof fn lemma_worker_fields_tied(s: PetalsState)
    requires
        s.wf(),
    ensures
        s.process is Some <==> s.model_name is Some,
        s.process is Some <==> s.node_token is Some,
{
}

/// Law: marking a provisioning workflow complete is idempotent — marking
/// twice equals marking once — and the flag stands true afterwards; no
/// transition here ever resets it to false.
pub proof fn lemma_mark_setup_idempotent(s: PetalsState)
    ensures
        s.with_wsl_marked().with_wsl_marked() == s.with_wsl_marked(),
        s.with_wsl_marked().wsl_setup_complete,
        s.with_macos_marked().with_macos_marked() == s.with_macos_marked(),
        s.with_macos_marked().macos_setup_complete,
{
}

/// Why a start request was rejected.
#[derive(Debug)]
pub enum StartError {
    /// A worker is already supervised; it is never silently replaced.
    AlreadyRunning,
    /// The sandbox-path provisioning workflow has not been completed.
    SandboxNotReady,
    /// The container-path provisioning workflow has not been completed.
    ContainerNotReady,
    /// The bundled worker script is not at the resolved path.
    ScriptMissing(String),
}

impl StartError {
    /// The operator-facing sentence for this rejection.
    pub fn message(&self) -> (r: String)
        ensures
            self matches StartError::AlreadyRunning ==> r@
                == "Petals seeder is already running."@,
            self matches StartError::SandboxNotReady ==> r@
                == "WSL environment not set up. Please complete WSL setup first."@,
            self matches StartError::ContainerNotReady ==> r@
                == "macOS environment not set up. Please complete setup first by clicking the Share GPU button."@,
            (self matches StartError::ScriptMissing(p) ==> r@ == "Python script not found at: "@
                + p@),
    {
        match self {
            StartError::AlreadyRunning => String::from_str("Petals seeder is already running."),
            StartError::SandboxNotReady => String::from_str(
                "WSL environment not set up. Please complete WSL setup first.",
            ),
            StartError::ContainerNotReady => String::from_str(
                "macOS environment not set up. Please complete setup first by clicking the Share GPU button.",
            ),
            StartError::ScriptMissing(p) => {
                let mut msg = String::from_str("Python script not found at: ");
                msg.append(p.as_str());
                msg
            },
        }
    }
}

/// How the worker is to be spawned.
pub enum SpawnSpec {
    /// One shell line run inside the sandbox layer, both streams merged.
    SandboxShell(String),
    /// A program run directly with an argument vector, both streams
    /// captured.
    Direct(String, Vec<String>),
}

/// Everything the host must do to start the worker, in order: an optional
/// clock-sync reset, an optional removal of an incompatible library, then
/// the spawn.
pub struct SeederStartPlan {
    /// Reset the platform's clock before spawning (the sandbox is
    /// restarted; the container host syncs time), accepting a short
    /// settle delay.
    pub time_sync_reset: bool,
    /// The pinned device token, on platforms that pin one.
    pub device: Option<String>,
    /// A sandbox command removing the accelerator-only library before a
    /// CPU run.
    pub remove_incompatible: Option<String>,
    pub spawn: SpawnSpec,
}

/// The start plan owed for a given platform and hardware report.
pub open spec fn seeder_plan_spec(
    platform: Platform,
    gpus: Seq<Seq<char>>,
    model: Seq<char>,
    token: Seq<char>,
    hf: Option<Seq<char>>,
    script: Seq<char>,
    plan: SeederStartPlan,
) -> bool {
    match platform {
        Platform::Windows => {
            let accel = spec_has_accelerator(gpus);
            let dev = if accel {
                "cuda"@
            } else {
                "cpu"@
            };
            plan.time_sync_reset && (plan.device matches Some(d) && d@ == dev) && (if accel {
                plan.remove_incompatible is None
            } else {
                plan.remove_incompatible matches Some(c) && c@
                    == "~/.torbiz_venv/bin/pip uninstall -y bitsandbytes 2>/dev/null || true"@
            }) && (plan.spawn matches SpawnSpec::SandboxShell(cmd) && cmd@
                == spec_wsl_seeder_command("~/run_petals_seeder.py"@, model, token, dev, hf))
        },
        Platform::MacOs => plan.time_sync_reset && plan.device is None && plan.remove_incompatible
            is None && (plan.spawn matches SpawnSpec::Direct(prog, args) && prog@ == "python3"@
            && args.deep_view() == spec_seeder_args(script, model, token, None, hf)),
        Platform::Linux => {
            let accel = spec_has_accelerator(gpus);
            let dev = if accel {
                "cuda"@
            } else {
                "cpu"@
            };
            !plan.time_sync_reset && (plan.device matches Some(d) && d@ == dev)
                && plan.remove_incompatible is None && (plan.spawn matches SpawnSpec::Direct(
                prog,
                args,
            ) && prog@ == "python3"@ && args.deep_view() == spec_seeder_args(
                script,
                model,
                token,
                Some(dev),
                hf,
            ))
        },
    }
}

impl PetalsState {
    /// Decide a start request.  It is rejected while a worker is
    /// supervised, when the platform's provisioning gate is not passed,
    /// or when the worker script is missing; otherwise the complete start
    /// plan is handed back for the host to execute.
    pub fn start_petals_seeder(
        &self,
        platform: Platform,
        gpu_info: &Vec<String>,
        model_name: &String,
        node_token: &String,
        hf_token: &Option<String>,
        script_path: &String,
        script_exists: bool,
    ) -> (r: Result<SeederStartPlan, StartError>)
        requires
            self.wf(),
        ensures
            self.process is Some ==> (r matches Err(e) && e matches StartError::AlreadyRunning),
            (self.process is None && !self.provisioned_for(platform) && platform
                == Platform::Windows) ==> (r matches Err(e) && e matches StartError::SandboxNotReady),
            (self.process is None && !self.provisioned_for(platform) && platform
                == Platform::MacOs) ==> (r matches Err(e)
                && e matches StartError::ContainerNotReady),
            (self.process is None && self.provisioned_for(platform) && !script_exists) ==> (
            r matches Err(e) && (e matches StartError::ScriptMissing(p) && p@ == script_path@)),
            (self.process is None && self.provisioned_for(platform) && script_exists) ==> (
            r matches Ok(plan) && seeder_plan_spec(
                platform,
                gpu_info.deep_view(),
                model_name@,
                node_token@,
                hf_token.deep_view(),
                script_path@,
                plan,
            )),
    {
        if self.process.is_some() {
            return Err(StartError::AlreadyRunning);
        }
        match platform {
            Platform::Windows => {
                if !self.wsl_setup_complete {
                    return Err(StartError::SandboxNotReady);
                }
            },
            Platform::MacOs => {
                if !self.macos_setup_complete {
                    return Err(StartError::ContainerNotReady);
                }
            },
            Platform::Linux => {},
        }
        if !script_exists {
            return Err(StartError::ScriptMissing(script_path.clone()));
        }
        match platform {
            Platform::Windows => {
                let device = select_device(gpu_info);
                let remove_incompatible = if crate::device::has_accelerator_gpu(gpu_info) {
                    None
                } else {
                    Some(remove_incompatible_library_command())
                };
                let inner_script = sandbox_script_path();
                let cmd = wsl_seeder_command(
                    inner_script.as_str(),
                    model_name.as_str(),
                    node_token.as_str(),
                    device.as_str(),
                    hf_token,
                );
                Ok(
                    SeederStartPlan {
                        time_sync_reset: true,
                        device: Some(device),
                        remove_incompatible,
                        spawn: SpawnSpec::SandboxShell(cmd),
                    },
                )
            },
            Platform::MacOs => {
                let args = seeder_args(
                    script_path.as_str(),
                    model_name.as_str(),
                    node_token.as_str(),
                    &None,
                    hf_token,
                );
                Ok(
                    SeederStartPlan {
                        time_sync_reset: true,
                        device: None,
                        remove_incompatible: None,
                        spawn: SpawnSpec::Direct(String::from_str("python3"), args),
                    },
                )
            },
            Platform::Linux => {
                let device = select_device(gpu_info);
                let args = seeder_args(
                    script_path.as_str(),
                    model_name.as_str(),
                    node_token.as_str(),
                    &Some(device.clone()),
                    hf_token,
                );
                Ok(
                    SeederStartPlan {
                        time_sync_reset: false,
                        device: Some(device),
                        remove_incompatible: None,
                        spawn: SpawnSpec::Direct(String::from_str("python3"), args),
                    },
                )
            },
        }
    }
}

/// Why a stop request was rejected.
#[derive(Debug)]
pub enum StopError {
    /// No worker is supervised; the state is left untouched.
    NotRunning,
}

impl StopError {
    pub fn message(&self) -> (r: String)
        ensures
            r@ == "No Petals seeder process is running"@,
    {
        String::from_str("No Petals seeder process is running")
    }
}

/// The cooperative first step of a shutdown.
pub enum GracefulStop {
    /// Send the worker process a terminate signal.
    SignalTerm(u64),
    /// The supervised handle is an outer wrapper: signal the inner worker
    /// through the sandbox by its credential fragment, wait three seconds,
    /// probe for it, force-kill it if it survived, then kill the wrapper.
    SandboxKill { term: String, probe: String, force: String, outer_pid: u64 },
}

/// Everything the host must do to stop the worker: the graceful step,
/// then a bounded wait on the handle (escalating to a forceful kill), and
/// on the sandbox platform a second lookup that force-kills a worker that
/// reappeared.
pub struct SeederStopPlan {
    pub graceful: GracefulStop,
    /// The post-wait verification: a probe command and the force-kill to
    /// run when the probe still finds the worker.
    pub verify_after: Option<(String, String)>,
}

impl PetalsState {
    /// Decide a stop request.  It is rejected when idle; otherwise the
    /// shutdown plan is handed back.  Once the host has run the plan it
    /// commits the idle state with [`PetalsState::commit_seeder_stop`].
    pub fn stop_petals_seeder(&self, platform: Platform) -> (r: Result<
        SeederStopPlan,
        StopError,
    >)
        requires
            self.wf(),
            (platform == Platform::Windows && self.process is Some) ==> (
            self.node_token matches Some(t) && t@.len() >= 12),
        ensures
            self.process is None ==> (r matches Err(e) && e matches StopError::NotRunning),
            (self.process is Some && platform != Platform::Windows) ==> (r matches Ok(plan)
                && plan.graceful == GracefulStop::SignalTerm(self.process.unwrap())
                && plan.verify_after is None),
            (self.process is Some && platform == Platform::Windows) ==> (r matches Ok(plan) && (
            plan.graceful matches GracefulStop::SandboxKill { term, probe, force, outer_pid }
                && term@ == spec_process_pattern_command(
                "pkill -TERM -f "@,
                self.node_token.unwrap()@.subrange(0, 12),
            ) && probe@ == spec_process_pattern_command(
                "pgrep -f "@,
                self.node_token.unwrap()@.subrange(0, 12),
            ) && force@ == spec_process_pattern_command(
                "pkill -9 -f "@,
                self.node_token.unwrap()@.subrange(0, 12),
            ) && outer_pid == self.process.unwrap()) && (plan.verify_after matches Some(va) && (
            va.0@ == spec_process_pattern_command(
                "pgrep -f "@,
                self.node_token.unwrap()@.subrange(0, 12),
            ) && va.1@ == spec_process_pattern_command(
                "pkill -9 -f "@,
                self.node_token.unwrap()@.subrange(0, 12),
            )))),
    {
        let pid: u64 = match self.process {
            Some(p) => p,
            None => {
                return Err(StopError::NotRunning);
            },
        };
        match platform {
            Platform::Windows => {
                let token: &String = match &self.node_token {
                    Some(t) => t,
                    None => {
                        return Err(StopError::NotRunning);
                    },
                };
                let term = sandbox_term_command(token.as_str());
                let probe = sandbox_probe_command(token.as_str());
                let force = sandbox_force_kill_command(token.as_str());
                let verify_probe = sandbox_probe_command(token.as_str());
                let verify_force = sandbox_force_kill_command(token.as_str());
                Ok(
                    SeederStopPlan {
                        graceful: GracefulStop::SandboxKill {
                            term,
                            probe,
                            force,
                            outer_pid: pid,
                        },
                        verify_after: Some((verify_probe, verify_force)),
                    },
                )
            },
            _ => Ok(
                SeederStopPlan { graceful: GracefulStop::SignalTerm(pid), verify_after: None },
            ),
        }
    }
}

/// The acknowledgement returned after a completed shutdown.
pub fn seeder_stopped_message() -> (r: String)
    ensures
        r@ == "Petals seeder stopped successfully"@,
{
    String::from_str("Petals seeder stopped successfully")
}

/// The acknowledgement returned after a successful start.
pub fn seeder_started_message(platform: Platform, model_name: &String) -> (r: String)
    ensures
        platform == Platform::Windows ==> r@ == "Petals seeder started in WSL for model: "@
            + model_name@,
        platform != Platform::Windows ==> r@ == "Petals seeder started for model: "@
            + model_name@,
{
    let mut msg = match platform {
        Platform::Windows => String::from_str("Petals seeder started in WSL for model: "),
        _ => String::from_str("Petals seeder started for model: "),
    };
    msg.append(model_name.as_str());
    msg
}

} // verus!
