//! Capability-probe interpretation.  Every probe is a pure function of what
//! the host observed: an absent tool is reported as "capability absent",
//! never as an error, and sequential dependent sub-probes short-circuit, so
//! an observation that was never needed is simply `None`.

use vstd::prelude::*;
use crate::Platform;
use crate::exec::CmdOutput;
use crate::text::{contains_seq, contains_str, trim_spec, trim_eq};

verus! {

/// A language runtime answered the version probe inside the sandbox.
pub fn check_wsl_python(platform: Platform, run: Option<&String>) -> (r: bool)
    ensures
        r == (platform == Platform::Windows && (run matches Some(out) && contains_seq(
            out@,
            "Python 3"@,
        ))),
{
    match platform {
        Platform::Windows => match run {
            Some(out) => contains_str(out.as_str(), "Python 3"),
            None => false,
        },
        _ => false,
    }
}

/// The installation-root probe reported the root missing.
pub fn venv_missing(out: &str) -> (r: bool)
    ensures
        r == (trim_spec(out@) == "missing"@),
{
    trim_eq(out, "missing")
}

/// The installation-root probe reported the root present.
pub fn venv_present(out: &str) -> (r: bool)
    ensures
        r == (trim_spec(out@) == "exists"@),
{
    trim_eq(out, "exists")
}

/// The core library set imported cleanly.
pub fn core_probe_ok(out: &str) -> (r: bool)
    ensures
        r == (trim_spec(out@) == "core_ok"@),
{
    trim_eq(out, "core_ok")
}

/// The optional extra libraries imported cleanly.
pub fn extras_probe_ok(out: &str) -> (r: bool)
    ensures
        r == (trim_spec(out@) == "extras_ok"@),
{
    trim_eq(out, "extras_ok")
}

/// The client-profile library set imported cleanly.
pub fn client_probe_ok(out: &str) -> (r: bool)
    ensures
        r == (trim_spec(out@) == "ok"@),
{
    trim_eq(out, "ok")
}

/// The full hosting library set is usable: the installation root is not
/// reported missing, the core libraries import, and the extras import.
/// Later observations are `None` when an earlier step short-circuited or
/// the command failed; both count as "not usable".
pub fn check_wsl_petals(
    platform: Platform,
    venv: Option<&String>,
    core: Option<&String>,
    extras: Option<&String>,
) -> (r: bool)
    ensures
        r == (platform == Platform::Windows && !(venv matches Some(v) && trim_spec(v@)
            == "missing"@) && (core matches Some(c) && trim_spec(c@) == "core_ok"@) && (
        extras matches Some(x) && trim_spec(x@) == "extras_ok"@)),
{
    match platform {
        Platform::Windows => {},
        _ => {
            return false;
        },
    }
    match venv {
        Some(v) => {
            if venv_missing(v.as_str()) {
                return false;
            }
        },
        None => {},
    }
    let core_ok = match core {
        Some(c) => core_probe_ok(c.as_str()),
        None => false,
    };
    if !core_ok {
        return false;
    }
    match extras {
        Some(x) => extras_probe_ok(x.as_str()),
        None => false,
    }
}

/// The client-profile library set is usable, under the same observation
/// conventions as the hosting check.
pub fn check_wsl_petals_client_only(
    platform: Platform,
    venv: Option<&String>,
    client: Option<&String>,
) -> (r: bool)
    ensures
        r == (platform == Platform::Windows && !(venv matches Some(v) && trim_spec(v@)
            == "missing"@) && (client matches Some(c) && trim_spec(c@) == "ok"@)),
{
    match platform {
        Platform::Windows => {},
        _ => {
            return false;
        },
    }
    match venv {
        Some(v) => {
            if venv_missing(v.as_str()) {
                return false;
            }
        },
        None => {},
    }
    match client {
        Some(c) => client_probe_ok(c.as_str()),
        None => false,
    }
}

/// The container platform's direct library probe printed its ok token.
pub fn check_petals_installed(run: Option<&String>) -> (r: bool)
    ensures
        r == (run matches Some(out) && trim_spec(out@) == "ok"@),
{
    match run {
        Some(out) => client_probe_ok(out.as_str()),
        None => false,
    }
}

/// The post-install verification printed its ok token.  The verification
/// is advisory: its failure never fails the install.
pub fn verify_probe_all_ok(run: Option<&String>) -> (r: bool)
    ensures
        r == (run matches Some(out) && trim_spec(out@) == "all_ok"@),
{
    match run {
        Some(out) => trim_eq(out.as_str(), "all_ok"),
        None => false,
    }
}

/// A language runtime is present when any candidate location answered the
/// version probe.
pub fn check_python3_installed(candidates_ok: &Vec<bool>) -> (r: bool)
    ensures
        r == exists|i: int| 0 <= i < candidates_ok@.len() && candidates_ok@[i],
{
    let mut i: usize = 0;
    while i < candidates_ok.len()
        invariant
            i <= candidates_ok@.len(),
            forall|j: int| 0 <= j < i ==> !candidates_ok@[j],
        decreases candidates_ok@.len() - i,
    {
        if candidates_ok[i] {
            return true;
        }
        i += 1;
    }
    false
}

/// Pick the first candidate location that answered the version probe.
pub fn find_executable(candidates_ok: &Vec<bool>) -> (r: Option<usize>)
    ensures
        r matches Some(i) ==> i < candidates_ok@.len() && candidates_ok@[i as int] && (forall|
            j: int,
        |
            0 <= j < i ==> !candidates_ok@[j]),
        r is None ==> forall|j: int| 0 <= j < candidates_ok@.len() ==> !candidates_ok@[j],
{
    let mut i: usize = 0;
    while i < candidates_ok.len()
        invariant
            i <= candidates_ok@.len(),
            forall|j: int| 0 <= j < i ==> !candidates_ok@[j],
        decreases candidates_ok@.len() - i,
    {
        if candidates_ok[i] {
            return Some(i);
        }
        i += 1;
    }
    None
}

/// A package manager is present when any candidate location answered the
/// version probe.
pub fn check_homebrew_installed(candidates_ok: &Vec<bool>) -> (r: bool)
    ensures
        r == exists|i: int| 0 <= i < candidates_ok@.len() && candidates_ok@[i],
{
    check_python3_installed(candidates_ok)
}

/// Whether the host can serve inference requests at all: on the sandbox
/// platform the sandbox must be installed and hold the client library set;
/// elsewhere the direct library probe must print its ok token.
pub fn check_petals_inference_ready(
    platform: Platform,
    wsl_status_ok: Option<bool>,
    venv: Option<&String>,
    client: Option<&String>,
    direct_probe: Option<&String>,
) -> (r: bool)
    ensures
        platform == Platform::Windows ==> r == ((wsl_status_ok == Some(true)) && !(
        venv matches Some(v) && trim_spec(v@) == "missing"@) && (client matches Some(c)
            && trim_spec(c@) == "ok"@)),
        platform != Platform::Windows ==> r == (direct_probe matches Some(out) && trim_spec(out@)
            == "ok"@),
{
    match platform {
        Platform::Windows => {
            if !crate::exec::check_wsl_installed(platform, wsl_status_ok) {
                return false;
            }
            check_wsl_petals_client_only(platform, venv, client)
        },
        _ => check_petals_installed(direct_probe),
    }
}

/// The container runtime is installed when its CLI answered or its
/// application bundle is on disk (installed but perhaps not running).
pub fn check_docker_installed(cli_ok: bool, app_bundle_present: bool) -> (r: bool)
    ensures
        r == (cli_ok || app_bundle_present),
{
    cli_ok || app_bundle_present
}

/// The container runtime's desktop process answered a process lookup with
/// a successful exit and non-empty output.
pub fn check_docker_desktop_running(run: Option<&CmdOutput>) -> (r: bool)
    ensures
        r == (run matches Some(out) && out.success && out.stdout@.len() > 0),
{
    match run {
        Some(out) => out.success && out.stdout.as_str().unicode_len() > 0,
        None => false,
    }
}

/// The prebuilt worker image already exists when the image lookup printed
/// anything beyond blanks.
pub fn check_docker_image_exists(run: Option<&String>) -> (r: bool)
    ensures
        r == (run matches Some(out) && trim_spec(out@).len() > 0),
{
    match run {
        Some(out) => {
            let trimmed = crate::text::trim_str(out.as_str());
            trimmed.unicode_len() > 0
        },
        None => false,
    }
}

} // verus!
