use petals_core::exec::{
    check_docker_running, check_docker_running_with_retries, check_wsl_installed,
    copy_script_commands, docker_retry_delay_seconds, execute_wsl_command, install_wsl, CmdOutput,
};
use petals_core::Platform;

fn completed(success: bool, code: Option<i32>, stdout: &str, stderr: &str) -> CmdOutput {
    CmdOutput {
        success,
        code,
        stdout: stdout.to_string(),
        stderr: stderr.to_string(),
    }
}

#[test]
fn successful_command_hands_back_stdout() {
    let r = execute_wsl_command(Platform::Windows, Ok(completed(true, Some(0), "out\n", "")));
    assert_eq!(r.unwrap(), "out\n");
}

#[test]
fn executor_is_sandbox_platform_only() {
    let r = execute_wsl_command(Platform::Linux, Ok(completed(true, Some(0), "out", "")));
    assert_eq!(r.unwrap_err(), "WSL commands are only supported on Windows");
}

#[test]
fn spawn_failure_is_surfaced_verbatim() {
    let r = execute_wsl_command(Platform::Windows, Err("program not found".to_string()));
    assert_eq!(
        r.unwrap_err(),
        "Failed to execute WSL command: program not found"
    );
}

#[test]
fn failure_with_stderr_carries_both_streams() {
    let r = execute_wsl_command(
        Platform::Windows,
        Ok(completed(false, Some(1), "partial", "boom")),
    );
    assert_eq!(
        r.unwrap_err(),
        "WSL command failed:\nSTDERR: boom\nSTDOUT: partial"
    );
}

#[test]
fn failure_with_only_stdout() {
    let r = execute_wsl_command(
        Platform::Windows,
        Ok(completed(false, Some(1), "just out", "")),
    );
    assert_eq!(r.unwrap_err(), "WSL command failed with output: just out");
}

#[test]
fn silent_failure_reports_the_exit_code() {
    let r = execute_wsl_command(Platform::Windows, Ok(completed(false, Some(127), "", "")));
    assert_eq!(
        r.unwrap_err(),
        "WSL command failed with exit code: 127 (no output)"
    );
    let r2 = execute_wsl_command(Platform::Windows, Ok(completed(false, None, "", "")));
    assert_eq!(
        r2.unwrap_err(),
        "WSL command failed with exit code: -1 (no output)"
    );
}

#[test]
fn base_runtime_presence_follows_the_status_probe() {
    assert!(check_wsl_installed(Platform::Windows, Some(true)));
    assert!(!check_wsl_installed(Platform::Windows, Some(false)));
    assert!(!check_wsl_installed(Platform::Windows, None));
    assert!(!check_wsl_installed(Platform::Linux, Some(true)));
}

#[test]
fn base_runtime_install_interpretation() {
    assert!(install_wsl(Platform::Windows, Ok(completed(true, Some(0), "", ""))).is_ok());
    assert_eq!(
        install_wsl(Platform::Windows, Ok(completed(false, Some(1), "", "denied")))
            .unwrap_err(),
        "WSL installation failed: denied"
    );
    assert_eq!(
        install_wsl(Platform::Windows, Err("no wsl".to_string())).unwrap_err(),
        "Failed to execute WSL install command: no wsl"
    );
    assert_eq!(
        install_wsl(Platform::MacOs, Ok(completed(true, Some(0), "", ""))).unwrap_err(),
        "WSL installation is only supported on Windows"
    );
}

#[test]
fn daemon_readiness_accepts_any_successful_attempt() {
    assert!(check_docker_running(&vec![false, false, true]));
    assert!(check_docker_running(&vec![true]));
    assert!(!check_docker_running(&vec![false, false, false]));
    assert!(!check_docker_running(&Vec::new()));
    assert!(check_docker_running_with_retries(&vec![false, true], 5));
    assert_eq!(docker_retry_delay_seconds(), 2);
}

#[test]
fn script_copy_quotes_the_content() {
    let (write_cmd, chmod_cmd) = copy_script_commands("~/x.py", "print('hi')");
    assert_eq!(
        write_cmd,
        "cat > ~/x.py << 'EOF'\nprint('\\''hi'\\'')\nEOF"
    );
    assert_eq!(chmod_cmd, "chmod +x ~/x.py");
}
