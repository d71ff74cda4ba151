use petals_core::hardware::{
    gpu_list_or_placeholder, parse_chipset_models, parse_display_controllers,
};
use petals_core::install::{
    build_docker_image_result, client_repair_commands, core_install_result, deps_install_result,
    docker_build_args, docker_image_query_args, install_wsl_python_commands,
    library_repair_commands, plan_client_library_install, plan_library_install,
    python_install_result, python_not_found_message, verify_install_result, ClientRepair,
    LibraryRepair,
};
use petals_core::exec::CmdOutput;
use petals_core::probes::{
    check_docker_desktop_running, check_docker_image_exists, check_docker_installed,
    check_homebrew_installed, check_petals_inference_ready, check_petals_installed,
    check_python3_installed, check_wsl_petals, check_wsl_petals_client_only, check_wsl_python,
    client_probe_ok, core_probe_ok, extras_probe_ok, find_executable, venv_missing, venv_present,
    verify_probe_all_ok,
};
use petals_core::Platform;

fn out(success: bool, stdout: &str, stderr: &str) -> CmdOutput {
    CmdOutput {
        success,
        code: Some(if success { 0 } else { 1 }),
        stdout: stdout.to_string(),
        stderr: stderr.to_string(),
    }
}

#[test]
fn token_probes_compare_trimmed_output() {
    assert!(core_probe_ok("core_ok\n"));
    assert!(!core_probe_ok("not_found\n"));
    assert!(extras_probe_ok("  extras_ok  "));
    assert!(client_probe_ok("ok\n"));
    assert!(venv_missing("missing\n"));
    assert!(venv_present("exists\n"));
    assert!(verify_probe_all_ok(Some(&"all_ok\n".to_string())));
    assert!(!verify_probe_all_ok(None));
}

#[test]
fn language_probe_tolerates_an_absent_tool() {
    assert!(check_wsl_python(
        Platform::Windows,
        Some(&"Python 3.10.6\n".to_string())
    ));
    assert!(!check_wsl_python(Platform::Windows, None));
    assert!(!check_wsl_python(
        Platform::Windows,
        Some(&"Python 2.7".to_string())
    ));
    assert!(!check_wsl_python(
        Platform::Linux,
        Some(&"Python 3.10".to_string())
    ));
}

#[test]
fn hosting_library_probe_short_circuits() {
    // missing root: later probes never ran
    assert!(!check_wsl_petals(
        Platform::Windows,
        Some(&"missing\n".to_string()),
        None,
        None
    ));
    // broken core: extras never probed
    assert!(!check_wsl_petals(
        Platform::Windows,
        Some(&"exists\n".to_string()),
        Some(&"not_found\n".to_string()),
        None
    ));
    // core ok but extras missing
    assert!(!check_wsl_petals(
        Platform::Windows,
        Some(&"exists\n".to_string()),
        Some(&"core_ok\n".to_string()),
        Some(&"extras_missing\n".to_string())
    ));
    // everything present
    assert!(check_wsl_petals(
        Platform::Windows,
        Some(&"exists\n".to_string()),
        Some(&"core_ok\n".to_string()),
        Some(&"extras_ok\n".to_string())
    ));
}

#[test]
fn client_library_probe() {
    assert!(check_wsl_petals_client_only(
        Platform::Windows,
        Some(&"exists\n".to_string()),
        Some(&"ok\n".to_string())
    ));
    assert!(!check_wsl_petals_client_only(
        Platform::Windows,
        Some(&"missing\n".to_string()),
        Some(&"ok\n".to_string())
    ));
    assert!(!check_wsl_petals_client_only(Platform::Linux, None, None));
}

#[test]
fn repair_mode_decision_table() {
    assert_eq!(plan_library_install(false, false, false), LibraryRepair::FreshInstall);
    assert_eq!(plan_library_install(true, false, true), LibraryRepair::ForceReinstallCore);
    assert_eq!(
        plan_library_install(true, true, false),
        LibraryRepair::InstallMissingExtras
    );
    assert_eq!(plan_library_install(true, true, true), LibraryRepair::AlreadyComplete);
}

#[test]
fn repair_commands_follow_the_plan() {
    let fresh = library_repair_commands(LibraryRepair::FreshInstall);
    assert_eq!(fresh.len(), 4);
    assert_eq!(fresh[0], "python3 -m venv ~/.torbiz_venv");
    assert!(fresh[2].contains("git+https://github.com/bigscience-workshop/petals"));
    assert!(fresh[3].contains("__pycache__"));

    let force = library_repair_commands(LibraryRepair::ForceReinstallCore);
    assert_eq!(force.len(), 2);
    assert!(force[0].contains("__pycache__"), "cache is cleared first");
    assert!(force[1].contains("--force-reinstall"));

    let extras = library_repair_commands(LibraryRepair::InstallMissingExtras);
    assert_eq!(extras, vec!["~/.torbiz_venv/bin/pip install peft accelerate".to_string()]);

    assert!(library_repair_commands(LibraryRepair::AlreadyComplete).is_empty());
}

#[test]
fn client_repair_plan_and_commands() {
    assert_eq!(plan_client_library_install(false, false), ClientRepair::FreshInstall);
    assert_eq!(plan_client_library_install(true, false), ClientRepair::Reinstall);
    assert_eq!(plan_client_library_install(true, true), ClientRepair::AlreadyComplete);
    assert_eq!(client_repair_commands(ClientRepair::FreshInstall).len(), 3);
    assert_eq!(client_repair_commands(ClientRepair::Reinstall).len(), 1);
    assert!(client_repair_commands(ClientRepair::AlreadyComplete).is_empty());
    assert_eq!(install_wsl_python_commands()[0], "sudo apt-get update");
}

#[test]
fn runtime_candidates_any_success_counts() {
    assert!(check_python3_installed(&vec![false, true, false]));
    assert!(!check_python3_installed(&Vec::new()));
    assert!(check_homebrew_installed(&vec![true]));
    assert_eq!(find_executable(&vec![false, true, true]), Some(1));
    assert_eq!(find_executable(&vec![false, false]), None);
    assert_eq!(
        python_not_found_message(),
        "Python 3 not found in any standard location"
    );
}

#[test]
fn container_runtime_probes() {
    assert!(check_docker_installed(false, true));
    assert!(!check_docker_installed(false, false));
    assert!(check_docker_desktop_running(Some(&out(true, "1234\n", ""))));
    assert!(!check_docker_desktop_running(Some(&out(true, "", ""))));
    assert!(!check_docker_desktop_running(None));
    assert!(check_docker_image_exists(Some(&"sha256:ab\n".to_string())));
    assert!(!check_docker_image_exists(Some(&" \n".to_string())));
    assert!(!check_docker_image_exists(None));
    assert!(check_petals_installed(Some(&"ok\n".to_string())));
    assert!(!check_petals_installed(Some(&"Traceback".to_string())));
}

#[test]
fn inference_readiness_by_platform() {
    assert!(check_petals_inference_ready(
        Platform::Windows,
        Some(true),
        Some(&"exists\n".to_string()),
        Some(&"ok\n".to_string()),
        None
    ));
    assert!(!check_petals_inference_ready(
        Platform::Windows,
        Some(false),
        Some(&"exists\n".to_string()),
        Some(&"ok\n".to_string()),
        None
    ));
    assert!(check_petals_inference_ready(
        Platform::MacOs,
        None,
        None,
        None,
        Some(&"ok\n".to_string())
    ));
    assert!(!check_petals_inference_ready(Platform::Linux, None, None, None, None));
}

#[test]
fn container_install_interpretation() {
    assert!(core_install_result(&Ok(out(true, "", ""))).is_ok());
    assert_eq!(
        core_install_result(&Ok(out(false, "so", "se"))).unwrap_err(),
        "Petals installation failed:\nSTDERR: se\nSTDOUT: so"
    );
    assert_eq!(
        core_install_result(&Err("no pip".to_string())).unwrap_err(),
        "Failed to run pip install: no pip"
    );
    // extras and verification are advisory: only a failed spawn is fatal
    assert!(deps_install_result(&Ok(out(false, "", "warn"))).is_ok());
    assert_eq!(
        deps_install_result(&Err("gone".to_string())).unwrap_err(),
        "Failed to install dependencies: gone"
    );
    assert!(verify_install_result(&Ok(out(false, "", ""))).is_ok());
    assert_eq!(
        verify_install_result(&Err("gone".to_string())).unwrap_err(),
        "Failed to verify installation: gone"
    );
    assert!(python_install_result(&Ok(out(true, "", ""))).is_ok());
    assert_eq!(
        python_install_result(&Ok(out(false, "", "brew sad"))).unwrap_err(),
        "Python installation failed: brew sad"
    );
}

#[test]
fn image_build_arguments_and_interpretation() {
    assert_eq!(
        docker_build_args("/repo"),
        vec![
            "build".to_string(),
            "-f".to_string(),
            "Dockerfile.macos".to_string(),
            "-t".to_string(),
            "torbiz-petals-macos:latest".to_string(),
            "/repo".to_string(),
        ]
    );
    assert_eq!(
        docker_image_query_args(),
        vec!["images".to_string(), "-q".to_string(), "torbiz-petals-macos:latest".to_string()]
    );
    assert!(build_docker_image_result(&Ok(out(true, "", ""))).is_ok());
    assert_eq!(
        build_docker_image_result(&Ok(out(false, "o", "e"))).unwrap_err(),
        "Docker build failed:\nSTDERR: e\nSTDOUT: o"
    );
}

#[test]
fn gpu_enumeration_parsing() {
    let lspci = "00:01.0 Host bridge: Intel\n01:00.0 VGA compatible controller: NVIDIA GeForce RTX 3080 \n02:00.0 3D controller: NVIDIA\nline with Display here\n";
    let gpus = parse_display_controllers(lspci);
    assert_eq!(
        gpus,
        vec![
            "01:00.0 VGA compatible controller: NVIDIA GeForce RTX 3080".to_string(),
            "02:00.0 3D controller: NVIDIA".to_string(),
            "line with Display here".to_string(),
        ]
    );
    let profiler = "Graphics/Displays:\n      Chipset Model: Apple M1 \n      Vendor: Apple\n";
    assert_eq!(
        parse_chipset_models(profiler),
        vec!["Chipset Model: Apple M1".to_string()]
    );
    assert_eq!(
        gpu_list_or_placeholder(Vec::new()),
        vec!["No GPU detected".to_string()]
    );
    assert_eq!(
        gpu_list_or_placeholder(vec!["x".to_string()]),
        vec!["x".to_string()]
    );
}

#[test]
fn greeting() {
    assert_eq!(
        petals_core::greet("Ada"),
        "Hello, Ada! You've been greeted from Rust!"
    );
}
