//! Construction of the worker's spawn commands and the cooperative-then-
//! forceful shutdown protocol.  The host executes what is built here and
//! reports each observation back.

use vstd::prelude::*;
use crate::text::trim_spec;

verus! {

/// The fixed path the worker script is copied to inside the sandbox.
pub fn sandbox_script_path() -> (r: String)
    ensures
        r@ == "~/run_petals_seeder.py"@,
{
    String::from_str("~/run_petals_seeder.py")
}

/// The sandbox-shell line that starts the hosting worker: activate the
/// installation root, then run the script with workload, credential,
/// device and port, an optional secondary credential, and both output
/// streams merged.
pub open spec fn spec_wsl_seeder_command(
    script: Seq<char>,
    model: Seq<char>,
    token: Seq<char>,
    device: Seq<char>,
    hf: Option<Seq<char>>,
) -> Seq<char> {
    "source ~/.torbiz_venv/bin/activate && python3 "@ + script + " --model-name '"@ + model
        + "' --node-token '"@ + token + "' --device "@ + device + " --port 31337"@ + (match hf {
        Some(t) => " --hf-token '"@ + t + "'"@,
        None => Seq::empty(),
    }) + " 2>&1"@
}

pub fn wsl_seeder_command(
    script: &str,
    model: &str,
    token: &str,
    device: &str,
    hf: &Option<String>,
) -> (r: String)
    ensures
        r@ == spec_wsl_seeder_command(
            script@,
            model@,
            token@,
            device@,
            match hf {
                Some(t) => Some(t@),
                None => None,
            },
        ),
{
    let mut cmd = String::from_str("source ~/.torbiz_venv/bin/activate && python3 ");
    cmd.append(script);
    cmd.append(" --model-name '");
    cmd.append(model);
    cmd.append("' --node-token '");
    cmd.append(token);
    cmd.append("' --device ");
    cmd.append(device);
    cmd.append(" --port 31337");
    match hf {
        Some(t) => {
            cmd.append(" --hf-token '");
            cmd.append(t.as_str());
            cmd.append("'");
        },
        None => {},
    }
    cmd.append(" 2>&1");
    cmd
}

/// The argument vector for a directly spawned hosting worker: workload and
/// credential always; a device token where the platform pins one; the
/// secondary credential when supplied.
pub open spec fn spec_seeder_args(
    script: Seq<char>,
    model: Seq<char>,
    token: Seq<char>,
    device: Option<Seq<char>>,
    hf: Option<Seq<char>>,
) -> Seq<Seq<char>> {
    seq![script, "--model-name"@, model, "--node-token"@, token] + (match device {
        Some(d) => seq!["--device"@, d],
        None => Seq::empty(),
    }) + (match hf {
        Some(t) => seq!["--hf-token"@, t],
        None => Seq::empty(),
    })
}

pub fn seeder_args(
    script: &str,
    model: &str,
    token: &str,
    device: &Option<String>,
    hf: &Option<String>,
) -> (r: Vec<String>)
    ensures
        r.deep_view() =~= spec_seeder_args(
            script@,
            model@,
            token@,
            match device {
                Some(d) => Some(d@),
                None => None,
            },
            match hf {
                Some(t) => Some(t@),
                None => None,
            },
        ),
{
    let mut args: Vec<String> = Vec::new();
    args.push(String::from_str(script));
    args.push(String::from_str("--model-name"));
    args.push(String::from_str(model));
    args.push(String::from_str("--node-token"));
    args.push(String::from_str(token));
    match device {
        Some(d) => {
            args.push(String::from_str("--device"));
            args.push(String::from_str(d.as_str()));
        },
        None => {},
    }
    match hf {
        Some(t) => {
            args.push(String::from_str("--hf-token"));
            args.push(String::from_str(t.as_str()));
        },
        None => {},
    }
    args
}

/// The sandbox command that removes the accelerator-only library before a
/// CPU run, so the worker does not crash importing it.
pub fn remove_incompatible_library_command() -> (r: String)
    ensures
        r@ == "~/.torbiz_venv/bin/pip uninstall -y bitsandbytes 2>/dev/null || true"@,
{
    String::from_str("~/.torbiz_venv/bin/pip uninstall -y bitsandbytes 2>/dev/null || true")
}

/// The credential fragment used to locate the inner worker process by its
/// command line.
pub fn token_fragment(token: &str) -> (r: &str)
    requires
        token@.len() >= 12,
    ensures
        r@ == token@.subrange(0, 12),
{
    token.substring_char(0, 12)
}

/// The shell line sent into the sandbox to signal, probe for, or force-kill
/// the inner worker, identified by a fragment of its credential.
pub open spec fn spec_process_pattern_command(prefix: Seq<char>, frag: Seq<char>) -> Seq<char> {
    prefix + "'python3.*run_petals_seeder.py.*"@ + frag + "'"@
}

fn pattern_command(prefix: &str, token: &str) -> (r: String)
    requires
        token@.len() >= 12,
    ensures
        r@ == spec_process_pattern_command(prefix@, token@.subrange(0, 12)),
{
    let mut cmd = String::from_str(prefix);
    cmd.append("'python3.*run_petals_seeder.py.*");
    cmd.append(token_fragment(token));
    cmd.append("'");
    cmd
}

/// The cooperative terminate signal for the inner worker.
pub fn sandbox_term_command(token: &str) -> (r: String)
    requires
        token@.len() >= 12,
    ensures
        r@ == spec_process_pattern_command("pkill -TERM -f "@, token@.subrange(0, 12)),
{
    pattern_command("pkill -TERM -f ", token)
}

/// The lookup that tests whether the inner worker is still alive.
pub fn sandbox_probe_command(token: &str) -> (r: String)
    requires
        token@.len() >= 12,
    ensures
        r@ == spec_process_pattern_command("pgrep -f "@, token@.subrange(0, 12)),
{
    pattern_command("pgrep -f ", token)
}

/// The forceful kill for an inner worker that outlived the grace period.
pub fn sandbox_force_kill_command(token: &str) -> (r: String)
    requires
        token@.len() >= 12,
    ensures
        r@ == spec_process_pattern_command("pkill -9 -f "@, token@.subrange(0, 12)),
{
    pattern_command("pkill -9 -f ", token)
}

/// A process lookup found the inner worker when it printed anything beyond
/// blanks.
pub fn inner_worker_alive(probe_stdout: &str) -> (r: bool)
    ensures
        r == (trim_spec(probe_stdout@).len() > 0),
{
    let trimmed = crate::text::trim_str(probe_stdout);
    trimmed.unicode_len() > 0
}

/// What one non-blocking poll of the supervised handle observed.
#[derive(PartialEq, Eq, Structural, Clone, Copy, Debug)]
pub enum PollResult {
    /// The process has exited and was reaped.
    Exited,
    /// The process is still running.
    StillRunning,
    /// The poll itself failed.
    PollError,
}

/// The supervisor's verdict after one poll during shutdown.
#[derive(PartialEq, Eq, Structural, Clone, Copy, Debug)]
pub enum WaitDecision {
    /// The process is gone; stop waiting.
    Reaped,
    /// Pause for the poll interval, then poll again.
    KeepWaiting,
    /// The grace period ran out or the poll failed: kill forcefully, then
    /// stop waiting.
    ForceKill,
}

/// The bounded wait between the cooperative signal and the forceful kill.
pub struct StopWait {
    pub elapsed_ms: u64,
    pub timeout_ms: u64,
    pub poll_interval_ms: u64,
}

impl StopWait {
    pub open spec fn wf(self) -> bool {
        self.timeout_ms == 5_000_000 && self.poll_interval_ms == 100 && self.elapsed_ms
            <= self.timeout_ms + self.poll_interval_ms
    }

    /// A fresh wait at the supervisor's grace period (5000 seconds) and
    /// poll interval (100 ms).
    pub fn new() -> (r: StopWait)
        ensures
            r.wf(),
            r.elapsed_ms == 0,
    {
        StopWait { elapsed_ms: 0, timeout_ms: 5_000_000, poll_interval_ms: 100 }
    }

    /// Decide from one poll: a reaped process ends the wait; a failed poll
    /// is treated as "assume still running, force kill"; a live process is
    /// given the rest of the grace period.
    pub fn step(&mut self, poll: PollResult) -> (d: WaitDecision)
        requires
            old(self).wf(),
        ensures
            final(self).wf(),
            poll == PollResult::Exited ==> d == WaitDecision::Reaped,
            poll == PollResult::PollError ==> d == WaitDecision::ForceKill,
            poll == PollResult::StillRunning && old(self).elapsed_ms > old(self).timeout_ms ==> d
                == WaitDecision::ForceKill,
            poll == PollResult::StillRunning && old(self).elapsed_ms <= old(self).timeout_ms ==> d
                == WaitDecision::KeepWaiting && final(self).elapsed_ms == old(self).elapsed_ms
                + old(self).poll_interval_ms,
    {
        match poll {
            PollResult::Exited => WaitDecision::Reaped,
            PollResult::PollError => WaitDecision::ForceKill,
            PollResult::StillRunning => {
                if self.elapsed_ms > self.timeout_ms {
                    WaitDecision::ForceKill
                } else {
                    self.elapsed_ms = self.elapsed_ms + self.poll_interval_ms;
                    WaitDecision::KeepWaiting
                }
            },
        }
    }
}

} // verus!
