//! The inference runner: a request/response sibling of the supervisor that
//! runs one short-lived worker per call.  Unlike the supervisor, a new run
//! implicitly supersedes any still-running previous process — last request
//! wins, no queuing, no rejection.

use vstd::prelude::*;
use crate::text::{shell_escaped, shell_escape};

verus! {

/// Tracks the one in-flight inference process, by the host's process id.
pub struct InferenceState {
    pub process: Option<u64>,
}

/// The state after a previous process was taken for termination.
pub open spec fn after_take(s: InferenceState) -> InferenceState {
    InferenceState { process: None }
}

/// The state after a freshly spawned process was committed.
pub open spec fn after_commit(s: InferenceState, pid: u64) -> InferenceState {
    InferenceState { process: Some(pid) }
}

impl InferenceState {
    pub fn new() -> (r: InferenceState)
        ensures
            r.process is None,
    {
        InferenceState { process: None }
    }

    /// Begin a new run: hand back the previous process, if any, for the
    /// host to kill and reap before it spawns the next one.
    pub fn take_for_supersede(&mut self) -> (prev: Option<u64>)
        ensures
            *final(self) == after_take(*old(self)),
            prev == old(self).process,
    {
        let prev = self.process;
        self.process = None;
        prev
    }

    /// Track the process just spawned for the newest request.
    pub fn commit_inference_start(&mut self, pid: u64)
        requires
            old(self).process is None,
        ensures
            *final(self) == after_commit(*old(self), pid),
    {
        self.process = Some(pid);
    }

    /// Tear down the current process, if any: the host kills and reaps
    /// what is handed back.
    pub fn stop_petals_inference(&mut self) -> (prev: Option<u64>)
        ensures
            final(self).process is None,
            prev == old(self).process,
    {
        let prev = self.process;
        self.process = None;
        prev
    }
}

/// Law (superseding policy): after two runs in succession with no stop in
/// between, the second take hands the first process back for termination,
/// and exactly the second process remains tracked.
pub proof fn lemma_inference_supersedes(s0: InferenceState, p1: u64, p2: u64)
    ensures
        ({
            let s1 = after_commit(after_take(s0), p1);
            let handed_back = s1.process;
            let s2 = after_commit(after_take(s1), p2);
            handed_back == Some(p1) && s2.process == Some(p2)
        }),
{
}

/// The fixed path the local-inference script is copied to inside the
/// sandbox.
pub fn sandbox_local_inference_path() -> (r: String)
    ensures
        r@ == "~/run_local_inference.py"@,
{
    String::from_str("~/run_local_inference.py")
}

/// The fixed path the network-inference script is copied to inside the
/// sandbox.
pub fn sandbox_petals_inference_path() -> (r: String)
    ensures
        r@ == "~/run_petals_inference.py"@,
{
    String::from_str("~/run_petals_inference.py")
}

/// The sandbox-shell line that runs an inference script: activate the
/// installation root, run the script unbuffered with workload, quoted
/// prompt and history, then the mode's trailing options, streams merged.
pub open spec fn spec_wsl_inference_command(
    script: Seq<char>,
    model: Seq<char>,
    prompt: Seq<char>,
    history: Seq<char>,
    tail: Seq<char>,
) -> Seq<char> {
    "source ~/.torbiz_venv/bin/activate && python3 -u "@ + script + " --model-name '"@ + model
        + "' --prompt '"@ + shell_escaped(prompt) + "' --conversation-history '"@ + shell_escaped(
        history,
    ) + "' "@ + tail + " 2>&1"@
}

fn wsl_inference_command(
    script: &str,
    model: &str,
    prompt: &str,
    history: &str,
    tail: &str,
) -> (r: String)
    ensures
        r@ == spec_wsl_inference_command(script@, model@, prompt@, history@, tail@),
{
    let escaped_prompt = shell_escape(prompt);
    let escaped_history = shell_escape(history);
    let mut cmd = String::from_str("source ~/.torbiz_venv/bin/activate && python3 -u ");
    cmd.append(script);
    cmd.append(" --model-name '");
    cmd.append(model);
    cmd.append("' --prompt '");
    cmd.append(escaped_prompt.as_str());
    cmd.append("' --conversation-history '");
    cmd.append(escaped_history.as_str());
    cmd.append("' ");
    cmd.append(tail);
    cmd.append(" 2>&1");
    cmd
}

/// The sandbox line for the one-shot local-inference script.
pub fn wsl_local_inference_command(
    script: &str,
    model: &str,
    prompt: &str,
    history: &str,
) -> (r: String)
    ensures
        r@ == spec_wsl_inference_command(
            script@,
            model@,
            prompt@,
            history@,
            "--stream --max-tokens 512"@,
        ),
{
    wsl_inference_command(script, model, prompt, history, "--stream --max-tokens 512")
}

/// The sandbox line for the one-shot network-inference script.
pub fn wsl_petals_inference_command(
    script: &str,
    model: &str,
    prompt: &str,
    history: &str,
) -> (r: String)
    ensures
        r@ == spec_wsl_inference_command(
            script@,
            model@,
            prompt@,
            history@,
            "--stream --timeout 500"@,
        ),
{
    wsl_inference_command(script, model, prompt, history, "--stream --timeout 500")
}

/// The argument vector for a directly spawned inference script: workload,
/// prompt and history, streaming on, then the mode's trailing options.
pub open spec fn spec_inference_args(
    script: Seq<char>,
    model: Seq<char>,
    prompt: Seq<char>,
    history: Seq<char>,
    extra: Seq<Seq<char>>,
) -> Seq<Seq<char>> {
    seq![
        script,
        "--model-name"@,
        model,
        "--prompt"@,
        prompt,
        "--conversation-history"@,
        history,
        "--stream"@,
    ] + extra
}

fn inference_args(
    script: &str,
    model: &str,
    prompt: &str,
    history: &str,
) -> (r: Vec<String>)
    ensures
        r.deep_view() =~= spec_inference_args(
            script@,
            model@,
            prompt@,
            history@,
            Seq::empty(),
        ),
{
    let mut args: Vec<String> = Vec::new();
    args.push(String::from_str(script));
    args.push(String::from_str("--model-name"));
    args.push(String::from_str(model));
    args.push(String::from_str("--prompt"));
    args.push(String::from_str(prompt));
    args.push(String::from_str("--conversation-history"));
    args.push(String::from_str(history));
    args.push(String::from_str("--stream"));
    args
}

/// Arguments for the local-inference script, capped at 512 tokens.
pub fn local_inference_args(
    script: &str,
    model: &str,
    prompt: &str,
    history: &str,
) -> (r: Vec<String>)
    ensures
        r.deep_view() =~= spec_inference_args(
            script@,
            model@,
            prompt@,
            history@,
            seq!["--max-tokens"@, "512"@],
        ),
{
    let mut args = inference_args(script, model, prompt, history);
    args.push(String::from_str("--max-tokens"));
    args.push(String::from_str("512"));
    args
}

/// Arguments for the network-inference script; the container platform
/// adds a request timeout, the native one does not.
pub fn petals_inference_args(
    script: &str,
    model: &str,
    prompt: &str,
    history: &str,
    with_timeout: bool,
) -> (r: Vec<String>)
    ensures
        with_timeout ==> r.deep_view() =~= spec_inference_args(
            script@,
            model@,
            prompt@,
            history@,
            seq!["--timeout"@, "500"@],
        ),
        !with_timeout ==> r.deep_view() =~= spec_inference_args(
            script@,
            model@,
            prompt@,
            history@,
            Seq::empty(),
        ),
{
    let mut args = inference_args(script, model, prompt, history);
    if with_timeout {
        args.push(String::from_str("--timeout"));
        args.push(String::from_str("500"));
    }
    args
}

/// The acknowledgement for a started network inference.
pub fn inference_started_message() -> (r: String)
    ensures
        r@ == "Inference started"@,
{
    String::from_str("Inference started")
}

/// The acknowledgement for a started local inference.
pub fn local_inference_started_message() -> (r: String)
    ensures
        r@ == "Local inference started"@,
{
    String::from_str("Local inference started")
}

/// The acknowledgement after stopping an inference process.
pub fn inference_stopped_message(was_running: bool) -> (r: String)
    ensures
        was_running ==> r@ == "Inference process stopped."@,
        !was_running ==> r@ == "No inference process was running."@,
{
    if was_running {
        String::from_str("Inference process stopped.")
    } else {
        String::from_str("No inference process was running.")
    }
}

} // verus!
