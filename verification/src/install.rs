//! Install planning.  Given what the capability probes observed, decide
//! which corrective action the host must run: a fresh install, a targeted
//! repair of the missing extras, or a full forced reinstall with the
//! compiled-artifact cache cleared first.

use vstd::prelude::*;
use crate::exec::CmdOutput;

verus! {

/// The corrective action for the hosting library set.
#[derive(PartialEq, Eq, Structural, Clone, Copy, Debug)]
pub enum LibraryRepair {
    /// No installation root yet: create it and install everything.
    FreshInstall,
    /// The core works but the optional extras do not: install only them.
    InstallMissingExtras,
    /// The core itself is broken: clear cached artifacts, then force a
    /// full reinstall.
    ForceReinstallCore,
    /// Everything imports cleanly; nothing to do.
    AlreadyComplete,
}

/// The hosting repair decision: a missing root wins, then a broken core,
/// then missing extras.
pub fn plan_library_install(venv_exists: bool, core_ok: bool, extras_ok: bool) -> (r:
    LibraryRepair)
    ensures
        !venv_exists ==> r == LibraryRepair::FreshInstall,
        venv_exists && !core_ok ==> r == LibraryRepair::ForceReinstallCore,
        venv_exists && core_ok && !extras_ok ==> r == LibraryRepair::InstallMissingExtras,
        venv_exists && core_ok && extras_ok ==> r == LibraryRepair::AlreadyComplete,
{
    if !venv_exists {
        LibraryRepair::FreshInstall
    } else if !core_ok {
        LibraryRepair::ForceReinstallCore
    } else if !extras_ok {
        LibraryRepair::InstallMissingExtras
    } else {
        LibraryRepair::AlreadyComplete
    }
}

/// The sandbox commands that realize a hosting repair, in execution order.
pub fn library_repair_commands(plan: LibraryRepair) -> (r: Vec<String>)
    ensures
        plan == LibraryRepair::FreshInstall ==> r.deep_view() =~= seq![
            "python3 -m venv ~/.torbiz_venv"@,
            "~/.torbiz_venv/bin/pip install --upgrade pip"@,
            "~/.torbiz_venv/bin/python -m pip install git+https://github.com/bigscience-workshop/petals"@,
            "find ~/.torbiz_venv -type d -name __pycache__ -exec rm -rf {} + 2>/dev/null || true"@,
        ],
        plan == LibraryRepair::ForceReinstallCore ==> r.deep_view() =~= seq![
            "find ~/.torbiz_venv -type d -name __pycache__ -exec rm -rf {} + 2>/dev/null || true"@,
            "~/.torbiz_venv/bin/pip install --force-reinstall git+https://github.com/bigscience-workshop/petals"@,
        ],
        plan == LibraryRepair::InstallMissingExtras ==> r.deep_view() =~= seq![
            "~/.torbiz_venv/bin/pip install peft accelerate"@,
        ],
        plan == LibraryRepair::AlreadyComplete ==> r.deep_view() =~= Seq::<Seq<char>>::empty(),
{
    let mut cmds: Vec<String> = Vec::new();
    match plan {
        LibraryRepair::FreshInstall => {
            cmds.push(String::from_str("python3 -m venv ~/.torbiz_venv"));
            cmds.push(String::from_str("~/.torbiz_venv/bin/pip install --upgrade pip"));
            cmds.push(
                String::from_str(
                    "~/.torbiz_venv/bin/python -m pip install git+https://github.com/bigscience-workshop/petals",
                ),
            );
            cmds.push(
                String::from_str(
                    "find ~/.torbiz_venv -type d -name __pycache__ -exec rm -rf {} + 2>/dev/null || true",
                ),
            );
        },
        LibraryRepair::ForceReinstallCore => {
            cmds.push(
                String::from_str(
                    "find ~/.torbiz_venv -type d -name __pycache__ -exec rm -rf {} + 2>/dev/null || true",
                ),
            );
            cmds.push(
                String::from_str(
                    "~/.torbiz_venv/bin/pip install --force-reinstall git+https://github.com/bigscience-workshop/petals",
                ),
            );
        },
        LibraryRepair::InstallMissingExtras => {
            cmds.push(String::from_str("~/.torbiz_venv/bin/pip install peft accelerate"));
        },
        LibraryRepair::AlreadyComplete => {},
    }
    cmds
}

/// The corrective action for the client-profile library set.
#[derive(PartialEq, Eq, Structural, Clone, Copy, Debug)]
pub enum ClientRepair {
    /// No installation root yet: create it and install the client set.
    FreshInstall,
    /// The root exists but the client set does not import: install it.
    Reinstall,
    /// The client set imports cleanly; nothing to do.
    AlreadyComplete,
}

pub fn plan_client_library_install(venv_exists: bool, client_ok: bool) -> (r: ClientRepair)
    ensures
        !venv_exists ==> r == ClientRepair::FreshInstall,
        venv_exists && !client_ok ==> r == ClientRepair::Reinstall,
        venv_exists && client_ok ==> r == ClientRepair::AlreadyComplete,
{
    if !venv_exists {
        ClientRepair::FreshInstall
    } else if !client_ok {
        ClientRepair::Reinstall
    } else {
        ClientRepair::AlreadyComplete
    }
}

/// The sandbox commands that realize a client repair, in execution order.
pub fn client_repair_commands(plan: ClientRepair) -> (r: Vec<String>)
    ensures
        plan == ClientRepair::FreshInstall ==> r.deep_view() =~= seq![
            "python3 -m venv ~/.torbiz_venv"@,
            "~/.torbiz_venv/bin/pip install --upgrade pip"@,
            "~/.torbiz_venv/bin/pip install git+https://github.com/bigscience-workshop/petals"@,
        ],
        plan == ClientRepair::Reinstall ==> r.deep_view() =~= seq![
            "~/.torbiz_venv/bin/pip install git+https://github.com/bigscience-workshop/petals"@,
        ],
        plan == ClientRepair::AlreadyComplete ==> r.deep_view() =~= Seq::<Seq<char>>::empty(),
{
    let mut cmds: Vec<String> = Vec::new();
    match plan {
        ClientRepair::FreshInstall => {
            cmds.push(String::from_str("python3 -m venv ~/.torbiz_venv"));
            cmds.push(String::from_str("~/.torbiz_venv/bin/pip install --upgrade pip"));
            cmds.push(
                String::from_str(
                    "~/.torbiz_venv/bin/pip install git+https://github.com/bigscience-workshop/petals",
                ),
            );
        },
        ClientRepair::Reinstall => {
            cmds.push(
                String::from_str(
                    "~/.torbiz_venv/bin/pip install git+https://github.com/bigscience-workshop/petals",
                ),
            );
        },
        ClientRepair::AlreadyComplete => {},
    }
    cmds
}

/// The sandbox commands that install the language runtime.
pub fn install_wsl_python_commands() -> (r: Vec<String>)
    ensures
        r.deep_view() =~= seq![
            "sudo apt-get update"@,
            "sudo apt-get install -y python3 python3-pip python3-venv python3-full"@,
        ],
{
    let mut cmds: Vec<String> = Vec::new();
    cmds.push(String::from_str("sudo apt-get update"));
    cmds.push(String::from_str("sudo apt-get install -y python3 python3-pip python3-venv python3-full"));
    cmds
}

/// The container platform's core library install is fatal on any failure,
/// with both captured streams in the diagnostic.
pub fn core_install_result(run: &Result<CmdOutput, String>) -> (r: Result<(), String>)
    ensures
        run matches Err(se) ==> (r matches Err(e) && e@ == "Failed to run pip install: "@ + se@),
        run matches Ok(out) ==> (if out.success {
            r is Ok
        } else {
            r matches Err(e) && e@ == "Petals installation failed:\nSTDERR: "@ + out.stderr@
                + "\nSTDOUT: "@ + out.stdout@
        }),
{
    match run {
        Err(se) => {
            let mut msg = String::from_str("Failed to run pip install: ");
            msg.append(se.as_str());
            Err(msg)
        },
        Ok(out) => {
            if out.success {
                Ok(())
            } else {
                let mut msg = String::from_str("Petals installation failed:\nSTDERR: ");
                msg.append(out.stderr.as_str());
                msg.append("\nSTDOUT: ");
                msg.append(out.stdout.as_str());
                Err(msg)
            }
        },
    }
}

/// The extras install on the container platform: only a failed spawn is
/// fatal; a non-zero exit is logged and swallowed, since the extras may
/// already be present.
pub fn deps_install_result(run: &Result<CmdOutput, String>) -> (r: Result<(), String>)
    ensures
        run matches Err(se) ==> (r matches Err(e) && e@ == "Failed to install dependencies: "@
            + se@),
        run is Ok ==> r is Ok,
{
    match run {
        Err(se) => {
            let mut msg = String::from_str("Failed to install dependencies: ");
            msg.append(se.as_str());
            Err(msg)
        },
        Ok(_) => Ok(()),
    }
}

/// The post-install verification: only a failed spawn is fatal; a wrong
/// token is logged and swallowed.
pub fn verify_install_result(run: &Result<CmdOutput, String>) -> (r: Result<(), String>)
    ensures
        run matches Err(se) ==> (r matches Err(e) && e@ == "Failed to verify installation: "@
            + se@),
        run is Ok ==> r is Ok,
{
    match run {
        Err(se) => {
            let mut msg = String::from_str("Failed to verify installation: ");
            msg.append(se.as_str());
            Err(msg)
        },
        Ok(_) => Ok(()),
    }
}

/// The container platform's language-runtime install through the package
/// manager: fatal on any failure.
pub fn python_install_result(run: &Result<CmdOutput, String>) -> (r: Result<(), String>)
    ensures
        run matches Err(se) ==> (r matches Err(e) && e@ == "Failed to install Python: "@ + se@),
        run matches Ok(out) ==> (if out.success {
            r is Ok
        } else {
            r matches Err(e) && e@ == "Python installation failed: "@ + out.stderr@
        }),
{
    match run {
        Err(se) => {
            let mut msg = String::from_str("Failed to install Python: ");
            msg.append(se.as_str());
            Err(msg)
        },
        Ok(out) => {
            if out.success {
                Ok(())
            } else {
                let mut msg = String::from_str("Python installation failed: ");
                msg.append(out.stderr.as_str());
                Err(msg)
            }
        },
    }
}

/// The rejection when no candidate location holds the language runtime.
pub fn python_not_found_message() -> (r: String)
    ensures
        r@ == "Python 3 not found in any standard location"@,
{
    String::from_str("Python 3 not found in any standard location")
}

/// The argument vector that builds the local worker image.
pub fn docker_build_args(project_root: &str) -> (r: Vec<String>)
    ensures
        r.deep_view() =~= seq![
            "build"@,
            "-f"@,
            "Dockerfile.macos"@,
            "-t"@,
            "torbiz-petals-macos:latest"@,
            project_root@,
        ],
{
    let mut args: Vec<String> = Vec::new();
    args.push(String::from_str("build"));
    args.push(String::from_str("-f"));
    args.push(String::from_str("Dockerfile.macos"));
    args.push(String::from_str("-t"));
    args.push(String::from_str("torbiz-petals-macos:latest"));
    args.push(String::from_str(project_root));
    args
}

/// The argument vector that looks the worker image up.
pub fn docker_image_query_args() -> (r: Vec<String>)
    ensures
        r.deep_view() =~= seq!["images"@, "-q"@, "torbiz-petals-macos:latest"@],
{
    let mut args: Vec<String> = Vec::new();
    args.push(String::from_str("images"));
    args.push(String::from_str("-q"));
    args.push(String::from_str("torbiz-petals-macos:latest"));
    args
}

/// The image build is a single long blocking call; any failure is fatal
/// and carries both captured streams.
pub fn build_docker_image_result(run: &Result<CmdOutput, String>) -> (r: Result<(), String>)
    ensures
        run matches Err(se) ==> (r matches Err(e) && e@ == "Failed to run docker build: "@ + se@),
        run matches Ok(out) ==> (if out.success {
            r is Ok
        } else {
            r matches Err(e) && e@ == "Docker build failed:\nSTDERR: "@ + out.stderr@
                + "\nSTDOUT: "@ + out.stdout@
        }),
{
    match run {
        Err(se) => {
            let mut msg = String::from_str("Failed to run docker build: ");
            msg.append(se.as_str());
            Err(msg)
        },
        Ok(out) => {
            if out.success {
                Ok(())
            } else {
                let mut msg = String::from_str("Docker build failed:\nSTDERR: ");
                msg.append(out.stderr.as_str());
                msg.append("\nSTDOUT: ");
                msg.append(out.stdout.as_str());
                Err(msg)
            }
        },
    }
}

} // verus!
