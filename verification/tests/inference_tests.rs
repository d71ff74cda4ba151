use petals_core::inference::{
    inference_started_message, inference_stopped_message, local_inference_args,
    local_inference_started_message, petals_inference_args, sandbox_local_inference_path,
    sandbox_petals_inference_path, wsl_local_inference_command, wsl_petals_inference_command,
    InferenceState,
};

#[test]
fn a_new_run_supersedes_the_previous_process() {
    let mut s = InferenceState::new();
    assert_eq!(s.take_for_supersede(), None);
    s.commit_inference_start(100);
    // second request arrives before the first finished
    let to_kill = s.take_for_supersede();
    assert_eq!(to_kill, Some(100));
    s.commit_inference_start(200);
    // exactly one process is tracked afterwards: the second
    assert_eq!(s.stop_petals_inference(), Some(200));
    assert_eq!(s.stop_petals_inference(), None);
}

#[test]
fn stop_acknowledgements() {
    assert_eq!(inference_stopped_message(true), "Inference process stopped.");
    assert_eq!(
        inference_stopped_message(false),
        "No inference process was running."
    );
    assert_eq!(inference_started_message(), "Inference started");
    assert_eq!(local_inference_started_message(), "Local inference started");
}

#[test]
fn sandbox_inference_lines_quote_prompt_and_history() {
    let cmd = wsl_local_inference_command("~/run_local_inference.py", "m", "it's me", "a 'b'");
    assert_eq!(
        cmd,
        "source ~/.torbiz_venv/bin/activate && python3 -u ~/run_local_inference.py \
         --model-name 'm' --prompt 'it'\\''s me' --conversation-history 'a '\\''b'\\''' \
         --stream --max-tokens 512 2>&1"
    );
    let net = wsl_petals_inference_command("~/run_petals_inference.py", "m", "p", "h");
    assert!(net.ends_with("--stream --timeout 500 2>&1"));
    assert_eq!(sandbox_local_inference_path(), "~/run_local_inference.py");
    assert_eq!(sandbox_petals_inference_path(), "~/run_petals_inference.py");
}

#[test]
fn direct_inference_argument_vectors() {
    let local = local_inference_args("/s.py", "m", "p", "h");
    assert_eq!(
        local,
        vec![
            "/s.py".to_string(),
            "--model-name".to_string(),
            "m".to_string(),
            "--prompt".to_string(),
            "p".to_string(),
            "--conversation-history".to_string(),
            "h".to_string(),
            "--stream".to_string(),
            "--max-tokens".to_string(),
            "512".to_string(),
        ]
    );
    let with_timeout = petals_inference_args("/s.py", "m", "p", "h", true);
    assert!(with_timeout.ends_with(&["--timeout".to_string(), "500".to_string()]));
    let plain = petals_inference_args("/s.py", "m", "p", "h", false);
    assert_eq!(plain.last().unwrap(), "--stream");
}
