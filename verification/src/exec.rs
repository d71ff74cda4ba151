//! Interpretation of one-shot command executions.  The host application
//! spawns the commands and reports what it observed as plain values; the
//! functions here turn those observations into the executor's caller-visible
//! results, exactly as the shell's operators see them.

use vstd::prelude::*;
use crate::Platform;
use crate::text::{dec_int_seq, i32_to_dec, shell_escaped, shell_escape};

verus! {

/// What the host observed of a command that ran to completion.
pub struct CmdOutput {
    /// The process exited successfully.
    pub success: bool,
    /// The exit code, when the process exited with one.
    pub code: Option<i32>,
    pub stdout: String,
    pub stderr: String,
}

/// The exit code reported in failure messages: `-1` when none was seen.
pub open spec fn code_or_default(c: Option<i32>) -> int {
    match c {
        Some(v) => v as int,
        None => -1,
    }
}

/// The executor's result for a sandbox-shell command, given the host's
/// observation of the spawn (`Err` means the spawn itself failed).
pub open spec fn wsl_command_result_spec(
    platform: Platform,
    spawn: Result<CmdOutput, String>,
    r: Result<String, String>,
) -> bool {
    match (platform, spawn) {
        (Platform::Windows, Ok(out)) => if out.success {
            r matches Ok(s) && s@ == out.stdout@
        } else if out.stderr@.len() > 0 {
            r matches Err(e) && e@ == "WSL command failed:\nSTDERR: "@ + out.stderr@
                + "\nSTDOUT: "@ + out.stdout@
        } else if out.stdout@.len() > 0 {
            r matches Err(e) && e@ == "WSL command failed with output: "@ + out.stdout@
        } else {
            r matches Err(e) && e@ == "WSL command failed with exit code: "@ + dec_int_seq(
                code_or_default(out.code),
            ) + " (no output)"@
        },
        (Platform::Windows, Err(se)) => r matches Err(e) && e@ == "Failed to execute WSL command: "@
            + se@,
        _ => r matches Err(e) && e@ == "WSL commands are only supported on Windows"@,
    }
}

/// Derive the executor's caller-visible result for a command run in the
/// sandbox shell.  On success the captured stdout is handed back; every
/// failure is turned into a diagnostic that carries whatever output the
/// command produced.
pub fn execute_wsl_command(platform: Platform, spawn: Result<CmdOutput, String>) -> (r: Result<
    String,
    String,
>)
    ensures
        wsl_command_result_spec(platform, spawn, r),
{
    match platform {
        Platform::Windows => {},
        _ => {
            return Err(String::from_str("WSL commands are only supported on Windows"));
        },
    }
    match spawn {
        Err(se) => {
            let mut msg = String::from_str("Failed to execute WSL command: ");
            msg.append(se.as_str());
            Err(msg)
        },
        Ok(out) => {
            if out.success {
                Ok(out.stdout)
            } else if out.stderr.as_str().unicode_len() > 0 {
                let mut msg = String::from_str("WSL command failed:\nSTDERR: ");
                msg.append(out.stderr.as_str());
                msg.append("\nSTDOUT: ");
                msg.append(out.stdout.as_str());
                Err(msg)
            } else if out.stdout.as_str().unicode_len() > 0 {
                let mut msg = String::from_str("WSL command failed with output: ");
                msg.append(out.stdout.as_str());
                Err(msg)
            } else {
                let code: i32 = match out.code {
                    Some(v) => v,
                    None => -1,
                };
                let mut msg = String::from_str("WSL command failed with exit code: ");
                let rendered = i32_to_dec(code);
                msg.append(rendered.as_str());
                msg.append(" (no output)");
                Err(msg)
            }
        },
    }
}

/// The sandbox layer is installed when its status command ran and exited
/// successfully; on any other platform, or when the command could not be
/// run at all, the capability is absent, never an error.
pub fn check_wsl_installed(platform: Platform, status_ok: Option<bool>) -> (r: bool)
    ensures
        r == (platform == Platform::Windows && status_ok == Some(true)),
{
    match platform {
        Platform::Windows => match status_ok {
            Some(ok) => ok,
            None => false,
        },
        _ => false,
    }
}

/// The result of the one-shot sandbox-layer installation, from the host's
/// observation of the install command.
pub fn install_wsl(platform: Platform, spawn: Result<CmdOutput, String>) -> (r: Result<
    (),
    String,
>)
    ensures
        platform != Platform::Windows ==> (r matches Err(e) && e@
            == "WSL installation is only supported on Windows"@),
        platform == Platform::Windows ==> match spawn {
            Err(se) => r matches Err(e) && e@ == "Failed to execute WSL install command: "@ + se@,
            Ok(out) => if out.success {
                r is Ok
            } else {
                r matches Err(e) && e@ == "WSL installation failed: "@ + out.stderr@
            },
        },
{
    match platform {
        Platform::Windows => {},
        _ => {
            return Err(String::from_str("WSL installation is only supported on Windows"));
        },
    }
    match spawn {
        Err(se) => {
            let mut msg = String::from_str("Failed to execute WSL install command: ");
            msg.append(se.as_str());
            Err(msg)
        },
        Ok(out) => {
            if out.success {
                Ok(())
            } else {
                let mut msg = String::from_str("WSL installation failed: ");
                msg.append(out.stderr.as_str());
                Err(msg)
            }
        },
    }
}

/// The container daemon's bounded-retry readiness policy: the daemon is
/// reachable when any attempt within the retry limit succeeded.  The host
/// probes at most `max_retries` times with a fixed delay between attempts,
/// stopping at the first success, and reports the outcomes in order.
pub fn check_docker_running_with_retries(attempts: &Vec<bool>, max_retries: u32) -> (r: bool)
    requires
        attempts@.len() <= max_retries,
    ensures
        r == exists|i: int| 0 <= i < attempts@.len() && attempts@[i],
{
    let mut i: usize = 0;
    while i < attempts.len()
        invariant
            i <= attempts@.len(),
            forall|j: int| 0 <= j < i ==> !attempts@[j],
        decreases attempts@.len() - i,
    {
        if attempts[i] {
            return true;
        }
        i += 1;
    }
    false
}

/// The daemon readiness check at its standard policy: three attempts, a
/// fixed two-second pause between them.
pub fn check_docker_running(attempts: &Vec<bool>) -> (r: bool)
    requires
        attempts@.len() <= 3,
    ensures
        r == exists|i: int| 0 <= i < attempts@.len() && attempts@[i],
{
    check_docker_running_with_retries(attempts, 3)
}

/// The fixed pause between daemon readiness attempts, in seconds.
pub fn docker_retry_delay_seconds() -> (r: u64)
    ensures
        r == 2,
{
    2
}

/// The shell commands that install a script inside the sandbox: write its
/// quoted content to the destination through a heredoc, then mark it
/// executable.
pub fn copy_script_commands(dest: &str, content: &str) -> (r: (String, String))
    ensures
        r.0@ == "cat > "@ + dest@ + " << 'EOF'\n"@ + shell_escaped(content@) + "\nEOF"@,
        r.1@ == "chmod +x "@ + dest@,
{
    let escaped = shell_escape(content);
    let mut write_cmd = String::from_str("cat > ");
    write_cmd.append(dest);
    write_cmd.append(" << 'EOF'\n");
    write_cmd.append(escaped.as_str());
    write_cmd.append("\nEOF");
    let mut chmod_cmd = String::from_str("chmod +x ");
    chmod_cmd.append(dest);
    (write_cmd, chmod_cmd)
}

} // verus!
