use petals_core::worker::{
    inner_worker_alive, sandbox_force_kill_command, sandbox_probe_command, sandbox_script_path,
    sandbox_term_command, seeder_args, token_fragment, wsl_seeder_command, PollResult, StopWait,
    WaitDecision,
};

#[test]
fn sandbox_command_line_is_built_exactly() {
    let cmd = wsl_seeder_command(
        "~/run_petals_seeder.py",
        "bigscience/bloom",
        "tok-123456789012",
        "cuda",
        &None,
    );
    assert_eq!(
        cmd,
        "source ~/.torbiz_venv/bin/activate && python3 ~/run_petals_seeder.py \
         --model-name 'bigscience/bloom' --node-token 'tok-123456789012' \
         --device cuda --port 31337 2>&1"
    );
    let with_hf = wsl_seeder_command("s", "m", "t", "cpu", &Some("hf".to_string()));
    assert!(with_hf.ends_with("--device cpu --port 31337 --hf-token 'hf' 2>&1"));
    assert_eq!(sandbox_script_path(), "~/run_petals_seeder.py");
}

#[test]
fn direct_argument_vector_is_deterministic() {
    let args = seeder_args("/s.py", "m", "t", &Some("cuda".to_string()), &Some("hf".to_string()));
    assert_eq!(
        args,
        vec![
            "/s.py".to_string(),
            "--model-name".to_string(),
            "m".to_string(),
            "--node-token".to_string(),
            "t".to_string(),
            "--device".to_string(),
            "cuda".to_string(),
            "--hf-token".to_string(),
            "hf".to_string(),
        ]
    );
    let bare = seeder_args("/s.py", "m", "t", &None, &None);
    assert_eq!(bare.len(), 5);
}

#[test]
fn credential_fragment_identifies_the_inner_worker() {
    assert_eq!(token_fragment("tok-123456789012345"), "tok-12345678");
    assert_eq!(
        sandbox_term_command("tok-123456789012345"),
        "pkill -TERM -f 'python3.*run_petals_seeder.py.*tok-12345678'"
    );
    assert_eq!(
        sandbox_probe_command("tok-123456789012345"),
        "pgrep -f 'python3.*run_petals_seeder.py.*tok-12345678'"
    );
    assert_eq!(
        sandbox_force_kill_command("tok-123456789012345"),
        "pkill -9 -f 'python3.*run_petals_seeder.py.*tok-12345678'"
    );
}

#[test]
fn probe_output_decides_whether_the_worker_survived() {
    assert!(inner_worker_alive("1234\n"));
    assert!(!inner_worker_alive("  \n"));
    assert!(!inner_worker_alive(""));
}

#[test]
fn shutdown_wait_reaps_or_escalates() {
    let mut w = StopWait::new();
    assert_eq!(w.step(PollResult::StillRunning), WaitDecision::KeepWaiting);
    assert_eq!(w.step(PollResult::Exited), WaitDecision::Reaped);
    assert_eq!(w.step(PollResult::PollError), WaitDecision::ForceKill);
}

#[test]
fn shutdown_wait_escalates_after_the_grace_period() {
    let mut w = StopWait::new();
    let mut decisions = 0u64;
    loop {
        match w.step(PollResult::StillRunning) {
            WaitDecision::KeepWaiting => decisions += 1,
            WaitDecision::ForceKill => break,
            WaitDecision::Reaped => unreachable!(),
        }
        assert!(decisions < 60_000, "the grace period must be bounded");
    }
    // 5000 seconds polled every 100 ms
    assert_eq!(decisions, 50_001);
}
