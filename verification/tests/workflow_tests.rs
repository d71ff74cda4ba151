use petals_core::workflow::{
    ContainerEvent, ContainerStage, ContainerWorkflow, Profile, SandboxAction, SandboxEvent,
    SandboxStage, SandboxWorkflow, SetupError, StepOutcome,
};

#[test]
fn workflow_begins_at_the_base_runtime_check() {
    let (m, ev) = SandboxWorkflow::begin(Profile::Hosting);
    assert_eq!(m.stage, SandboxStage::CheckingBaseRuntime);
    assert_eq!(ev.stage, "checking_base_runtime");
    assert_eq!(ev.progress, 10);
    assert_eq!(m.pending(), Some(SandboxAction::ProbeBaseRuntime));
}

#[test]
fn absent_base_runtime_forces_restart_after_successful_install() {
    let (mut m, _) = SandboxWorkflow::begin(Profile::Hosting);
    let r = m.step(SandboxEvent::BaseProbe(false));
    assert_eq!(m.stage, SandboxStage::InstallingBaseRuntime);
    assert_eq!(r.events.len(), 1);
    assert_eq!(r.events[0].stage, "installing_base_runtime");
    assert_eq!(r.events[0].progress, 20);
    assert!(matches!(r.outcome, StepOutcome::Continue));

    let r2 = m.step(SandboxEvent::BaseInstall(Ok(())));
    assert_eq!(m.stage, SandboxStage::Failed);
    assert_eq!(r2.events.len(), 1);
    assert_eq!(r2.events[0].stage, "base_runtime_installed");
    assert_eq!(r2.events[0].progress, 40);
    match r2.outcome {
        StepOutcome::Fail(e) => {
            assert!(matches!(e, SetupError::RestartRequired));
            assert_eq!(
                e.message(),
                "WSL has been installed but requires a system restart. Please restart your computer and try again."
            );
        }
        _ => panic!("a first-time base-runtime install ends the run"),
    }
    // no completion event was ever emitted
    assert!(r.events.iter().all(|e| e.stage != "complete"));
    assert!(r2.events.iter().all(|e| e.stage != "complete"));
    assert_eq!(m.pending(), None);
}

#[test]
fn absent_base_runtime_forces_restart_even_after_failed_install() {
    let (mut m, _) = SandboxWorkflow::begin(Profile::Hosting);
    m.step(SandboxEvent::BaseProbe(false));
    let r = m.step(SandboxEvent::BaseInstall(Err("installer exploded".to_string())));
    assert!(matches!(
        r.outcome,
        StepOutcome::Fail(SetupError::RestartRequired)
    ));
    assert!(r.events.iter().all(|e| e.stage != "complete"));
}

#[test]
fn hosting_happy_path_emits_monotonic_progress() {
    let (mut m, first) = SandboxWorkflow::begin(Profile::Hosting);
    let mut events = vec![first];
    let steps = [
        SandboxEvent::BaseProbe(true),
        SandboxEvent::LangProbe(false),
        SandboxEvent::LangInstall(Ok(())),
        SandboxEvent::LibsProbe(false),
        SandboxEvent::LibsInstall(Ok(())),
        SandboxEvent::Configured,
    ];
    let mut last = None;
    for ev in steps {
        let r = m.step(ev);
        events.extend(r.events);
        last = Some(r.outcome);
    }
    assert_eq!(m.stage, SandboxStage::Complete);
    match last.unwrap() {
        StepOutcome::Done(msg) => assert_eq!(msg, "WSL environment is ready for Petals"),
        _ => panic!("the full run completes"),
    }
    let stages: Vec<&str> = events.iter().map(|e| e.stage.as_str()).collect();
    assert_eq!(
        stages,
        vec![
            "checking_base_runtime",
            "checking_language_runtime",
            "installing_language_runtime",
            "checking_library_set",
            "installing_library_set",
            "configuring_environment",
            "complete",
        ]
    );
    let progress: Vec<u8> = events.iter().map(|e| e.progress).collect();
    assert_eq!(progress, vec![10, 50, 60, 70, 80, 90, 100]);
    assert!(progress.windows(2).all(|w| w[0] <= w[1]));
}

#[test]
fn client_profile_uses_its_own_messages() {
    let (mut m, _) = SandboxWorkflow::begin(Profile::ClientOnly);
    m.step(SandboxEvent::BaseProbe(true));
    m.step(SandboxEvent::LangProbe(true));
    let r = m.step(SandboxEvent::LibsProbe(false));
    assert_eq!(
        r.events[0].message,
        "Installing Petals for inference (minimal dependencies)..."
    );
    m.step(SandboxEvent::LibsInstall(Ok(())));
    let done = m.step(SandboxEvent::Configured);
    match done.outcome {
        StepOutcome::Done(msg) => {
            assert_eq!(msg, "WSL environment is ready for Petals inference")
        }
        _ => panic!("the client run completes"),
    }
    assert_eq!(
        done.events[0].message,
        "WSL environment setup complete! You can now use Direct Mode."
    );
}

#[test]
fn failed_library_install_carries_its_own_diagnostic() {
    let (mut m, _) = SandboxWorkflow::begin(Profile::Hosting);
    m.step(SandboxEvent::BaseProbe(true));
    m.step(SandboxEvent::LangProbe(true));
    m.step(SandboxEvent::LibsProbe(false));
    let r = m.step(SandboxEvent::LibsInstall(Err("pip failed".to_string())));
    match r.outcome {
        StepOutcome::Fail(e) => assert_eq!(e.message(), "pip failed"),
        _ => panic!("a failed install halts the workflow"),
    }
    assert_eq!(m.stage, SandboxStage::Failed);
}

#[test]
fn container_workflow_rejects_a_missing_runtime() {
    let (mut m, first) = ContainerWorkflow::begin("/repo".to_string());
    assert_eq!(first.stage, "checking_container_runtime");
    assert_eq!(first.progress, 10);
    let r = m.step(ContainerEvent::RuntimeProbe(false));
    assert_eq!(r.events[0].stage, "container_runtime_missing");
    assert_eq!(r.events[0].progress, 15);
    match r.outcome {
        StepOutcome::Fail(e) => {
            let msg = e.message();
            assert!(msg.starts_with("Docker is required for GPU sharing on macOS but not found."));
            assert!(msg.contains("https://www.docker.com/products/docker-desktop"));
        }
        _ => panic!("a missing runtime halts the workflow"),
    }
}

#[test]
fn unreachable_service_reports_remediation_with_project_root() {
    let (mut m, _) = ContainerWorkflow::begin("/repo".to_string());
    m.step(ContainerEvent::RuntimeProbe(true));
    let r = m.step(ContainerEvent::ServiceProbe {
        desktop_running: false,
        daemon_ok: false,
    });
    let stages: Vec<&str> = r.events.iter().map(|e| e.stage.as_str()).collect();
    assert_eq!(stages, vec!["service_not_running", "service_unreachable"]);
    match r.outcome {
        StepOutcome::Fail(e) => {
            let msg = e.message();
            assert!(msg.starts_with("Docker Desktop is not running."));
            assert!(msg.contains("cd /repo"));
        }
        _ => panic!("an unreachable service halts the workflow"),
    }
}

#[test]
fn slow_daemon_gets_the_wait_remediation() {
    let (mut m, _) = ContainerWorkflow::begin("/repo".to_string());
    m.step(ContainerEvent::RuntimeProbe(true));
    let r = m.step(ContainerEvent::ServiceProbe {
        desktop_running: true,
        daemon_ok: false,
    });
    assert_eq!(r.events.len(), 1);
    match r.outcome {
        StepOutcome::Fail(e) => {
            let msg = e.message();
            assert!(msg.starts_with("Docker Desktop is running but the daemon is not responding."));
            assert!(msg.contains("cd /repo"));
        }
        _ => panic!("an unreachable service halts the workflow"),
    }
}

#[test]
fn container_happy_path_builds_the_image_and_completes() {
    let (mut m, first) = ContainerWorkflow::begin("/repo".to_string());
    let mut events = vec![first];
    let steps = [
        ContainerEvent::RuntimeProbe(true),
        ContainerEvent::ServiceProbe {
            desktop_running: true,
            daemon_ok: true,
        },
        ContainerEvent::LangProbe(false),
        ContainerEvent::PackageManagerProbe(true),
        ContainerEvent::LangInstall(Ok(())),
        ContainerEvent::LibsProbe(false),
        ContainerEvent::LibsInstall(Ok(())),
        ContainerEvent::LibsVerify(false),
        ContainerEvent::ImageProbe(false),
        ContainerEvent::ImageBuild(Ok(())),
        ContainerEvent::ClockSynced,
    ];
    let mut last = None;
    for ev in steps {
        let r = m.step(ev);
        events.extend(r.events);
        last = Some(r.outcome);
    }
    assert_eq!(m.stage, ContainerStage::Complete);
    match last.unwrap() {
        StepOutcome::Done(msg) => assert_eq!(
            msg,
            "macOS environment is ready. GPU sharing will run in Docker container."
        ),
        _ => panic!("the full run completes"),
    }
    let progress: Vec<u8> = events.iter().map(|e| e.progress).collect();
    assert_eq!(
        progress,
        vec![10, 25, 30, 40, 50, 55, 60, 70, 75, 80, 85, 88, 90, 95, 97, 100]
    );
    assert!(progress.windows(2).all(|w| w[0] <= w[1]));
}

#[test]
fn missing_package_manager_halts_the_container_workflow() {
    let (mut m, _) = ContainerWorkflow::begin("/repo".to_string());
    m.step(ContainerEvent::RuntimeProbe(true));
    m.step(ContainerEvent::ServiceProbe {
        desktop_running: true,
        daemon_ok: true,
    });
    m.step(ContainerEvent::LangProbe(false));
    let r = m.step(ContainerEvent::PackageManagerProbe(false));
    match r.outcome {
        StepOutcome::Fail(e) => {
            assert!(e
                .message()
                .starts_with("Homebrew is required to install Python for direct inference."));
        }
        _ => panic!("a missing package manager halts the workflow"),
    }
}

#[test]
fn existing_image_skips_the_build() {
    let (mut m, _) = ContainerWorkflow::begin("/repo".to_string());
    m.step(ContainerEvent::RuntimeProbe(true));
    m.step(ContainerEvent::ServiceProbe {
        desktop_running: true,
        daemon_ok: true,
    });
    m.step(ContainerEvent::LangProbe(true));
    m.step(ContainerEvent::LibsProbe(true));
    let r = m.step(ContainerEvent::ImageProbe(true));
    assert_eq!(r.events[0].message, "Docker image ready");
    assert_eq!(m.stage, ContainerStage::SyncingClock);
}
