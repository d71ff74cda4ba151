//! The staged, resumable provisioning workflows, one per platform path.
//!
//! Each workflow is a state machine driven by the host: the machine names
//! the next probe or install to perform, the host performs it and reports
//! the outcome, and the machine answers with the progress events owed and
//! either the next stage or a terminal result.  Progress events are emitted
//! on entering a stage, before its work, so a UI can show "in progress"
//! immediately.

use vstd::prelude::*;

verus! {

/// One progress event of a provisioning workflow.
pub struct SetupProgress {
    pub stage: String,
    pub message: String,
    pub progress: u8,
}

/// `e` is the progress event with exactly this token, text and value.
pub open spec fn progress_is(
    e: SetupProgress,
    stage: Seq<char>,
    message: Seq<char>,
    progress: int,
) -> bool {
    e.stage@ == stage && e.message@ == message && e.progress == progress
}

/// Which library set a workflow provisions: the full hosting set with its
/// extras, or the smaller client set for inference only.
#[derive(PartialEq, Eq, Structural, Clone, Copy, Debug)]
pub enum Profile {
    Hosting,
    ClientOnly,
}

/// Why a workflow terminated without completing.
pub enum SetupError {
    /// The base runtime was just installed; the host environment must be
    /// restarted before the workflow can be re-run.
    RestartRequired,
    /// The container runtime is not installed at all.
    ContainerRuntimeMissing,
    /// The container runtime's background service stayed unreachable
    /// through the bounded retries.
    ServiceUnavailable { desktop_running: bool, project_root: String },
    /// No package manager to install the language runtime with.
    PackageManagerMissing,
    /// An install step failed; its own diagnostic is carried verbatim.
    StepFailed(String),
}

impl SetupError {
    /// The operator-facing remediation text: what failed, why, and what to
    /// do next.
    pub fn message(&self) -> (r: String)
        ensures
            self matches SetupError::RestartRequired ==> r@
                == "WSL has been installed but requires a system restart. Please restart your computer and try again."@,
            self matches SetupError::ContainerRuntimeMissing ==> r@
                == "Docker is required for GPU sharing on macOS but not found.\n\nPlease install Docker Desktop from:\nhttps://www.docker.com/products/docker-desktop\n\nAfter installing Docker Desktop:\n1. Open Docker Desktop app\n2. Wait for it to start (whale icon in menu bar)\n3. Click 'Share GPU' again\n\nNote: Direct inference will still work without Docker."@,
            self matches SetupError::PackageManagerMissing ==> r@
                == "Homebrew is required to install Python for direct inference.\nPlease install it from https://brew.sh\n\nGPU sharing will use Docker (already set up),\nbut direct inference needs Python installed on your system."@,
            (self matches SetupError::StepFailed(m) ==> r@ == m@),
            (self matches SetupError::ServiceUnavailable { desktop_running, project_root }
                ==> (if *desktop_running {
                r@
                    == "Docker Desktop is running but the daemon is not responding.\n\nThis usually happens when Docker is still starting up.\n\nPlease try:\n1. Wait 30-60 seconds for Docker to fully start\n2. Look for the whale icon in your menu bar\n3. Click 'Share GPU' again\n\nStill not working?\nYou can bypass auto-detection and set up manually:\n1. Open Terminal\n2. Run: cd "@
                    + project_root@
                    + "\n3. Run: ./build-docker-macos.sh\n4. After successful build, click 'Skip Setup' button\n\nNote: Direct inference will still work without Docker."@
            } else {
                r@
                    == "Docker Desktop is not running.\n\nPlease start Docker Desktop:\n1. Open Docker Desktop app from Applications folder\n2. Wait for the whale icon to appear in menu bar (30-60 seconds)\n3. The whale icon should be steady (not animated)\n4. Click 'Share GPU' again in Torbiz\n\nDocker Desktop not installed?\nDownload from: https://www.docker.com/products/docker-desktop\n\nWant to set up manually?\n1. Make sure Docker Desktop is running\n2. Open Terminal and run: cd "@
                    + project_root@
                    + "\n3. Run: ./build-docker-macos.sh\n4. After successful build, click 'Skip Setup' button\n\nNote: Direct inference will still work without Docker."@
            })),
    {
        match self {
            SetupError::RestartRequired => String::from_str(
                "WSL has been installed but requires a system restart. Please restart your computer and try again.",
            ),
            SetupError::ContainerRuntimeMissing => String::from_str(
                "Docker is required for GPU sharing on macOS but not found.\n\nPlease install Docker Desktop from:\nhttps://www.docker.com/products/docker-desktop\n\nAfter installing Docker Desktop:\n1. Open Docker Desktop app\n2. Wait for it to start (whale icon in menu bar)\n3. Click 'Share GPU' again\n\nNote: Direct inference will still work without Docker.",
            ),
            SetupError::PackageManagerMissing => String::from_str(
                "Homebrew is required to install Python for direct inference.\nPlease install it from https://brew.sh\n\nGPU sharing will use Docker (already set up),\nbut direct inference needs Python installed on your system.",
            ),
            SetupError::StepFailed(m) => {
                let mut out = String::new();
                out.append(m.as_str());
                assert(out@ =~= m@);
                out
            },
            SetupError::ServiceUnavailable { desktop_running, project_root } => {
                let mut out = if *desktop_running {
                    String::from_str(
                        "Docker Desktop is running but the daemon is not responding.\n\nThis usually happens when Docker is still starting up.\n\nPlease try:\n1. Wait 30-60 seconds for Docker to fully start\n2. Look for the whale icon in your menu bar\n3. Click 'Share GPU' again\n\nStill not working?\nYou can bypass auto-detection and set up manually:\n1. Open Terminal\n2. Run: cd ",
                    )
                } else {
                    String::from_str(
                        "Docker Desktop is not running.\n\nPlease start Docker Desktop:\n1. Open Docker Desktop app from Applications folder\n2. Wait for the whale icon to appear in menu bar (30-60 seconds)\n3. The whale icon should be steady (not animated)\n4. Click 'Share GPU' again in Torbiz\n\nDocker Desktop not installed?\nDownload from: https://www.docker.com/products/docker-desktop\n\nWant to set up manually?\n1. Make sure Docker Desktop is running\n2. Open Terminal and run: cd ",
                    )
                };
                out.append(project_root.as_str());
                out.append(
                    "\n3. Run: ./build-docker-macos.sh\n4. After successful build, click 'Skip Setup' button\n\nNote: Direct inference will still work without Docker.",
                );
                out
            },
        }
    }
}

/// The stages of the sandbox-path workflow, traversed strictly in order.
#[derive(PartialEq, Eq, Structural, Clone, Copy, Debug)]
pub enum SandboxStage {
    CheckingBaseRuntime,
    InstallingBaseRuntime,
    CheckingLanguageRuntime,
    InstallingLanguageRuntime,
    CheckingLibrarySet,
    InstallingLibrarySet,
    ConfiguringEnvironment,
    Complete,
    Failed,
}

/// What the host must do next for the sandbox-path workflow.
#[derive(PartialEq, Eq, Structural, Clone, Copy, Debug)]
pub enum SandboxAction {
    ProbeBaseRuntime,
    InstallBaseRuntime,
    ProbeLanguageRuntime,
    InstallLanguageRuntime,
    ProbeLibrarySet,
    InstallLibrarySet,
    ConfigureEnvironment,
}

/// What the host observed for the pending sandbox-path action.
pub enum SandboxEvent {
    BaseProbe(bool),
    BaseInstall(Result<(), String>),
    LangProbe(bool),
    LangInstall(Result<(), String>),
    LibsProbe(bool),
    LibsInstall(Result<(), String>),
    Configured,
}

/// How a workflow step left the run.
pub enum StepOutcome {
    /// More stages follow; ask the machine for the next action.
    Continue,
    /// The workflow completed; the acknowledgement is carried.
    Done(String),
    /// The workflow terminated early.
    Fail(SetupError),
}

/// The progress events owed by one step, in emission order, and how the
/// run went on.
pub struct StepResult {
    pub events: Vec<SetupProgress>,
    pub outcome: StepOutcome,
}

/// The sandbox-path provisioning workflow.
pub struct SandboxWorkflow {
    pub stage: SandboxStage,
    pub profile: Profile,
}

/// The library-set probe message for a profile.
pub open spec fn checking_libs_message(p: Profile) -> Seq<char> {
    if p == Profile::Hosting {
        "Checking Petals library... (Don't close any terminal windows that appear)"@
    } else {
        "Checking Petals library for inference... (Don't close any terminal windows that appear)"@
    }
}

/// The library-set install message for a profile.
pub open spec fn installing_libs_message(p: Profile) -> Seq<char> {
    if p == Profile::Hosting {
        "Installing Petals (~3GB download, 5-10 min). Terminal windows will open/close automatically - please wait..."@
    } else {
        "Installing Petals for inference (minimal dependencies)..."@
    }
}

/// The completion message for a profile.
pub open spec fn sandbox_complete_message(p: Profile) -> Seq<char> {
    if p == Profile::Hosting {
        "WSL environment setup complete! You can now share your GPU."@
    } else {
        "WSL environment setup complete! You can now use Direct Mode."@
    }
}

/// The acknowledgement a finished sandbox-path workflow returns.
pub open spec fn sandbox_done_message(p: Profile) -> Seq<char> {
    if p == Profile::Hosting {
        "WSL environment is ready for Petals"@
    } else {
        "WSL environment is ready for Petals inference"@
    }
}

/// The full step relation of the sandbox-path machine: given the stage and
/// profile before the step and the reported event, it pins the stage after
/// the step, the events emitted and the outcome.
pub open spec fn sandbox_step_spec(
    pre: SandboxWorkflow,
    ev: SandboxEvent,
    post: SandboxWorkflow,
    r: StepResult,
) -> bool {
    post.profile == pre.profile && match (pre.stage, ev) {
        (SandboxStage::CheckingBaseRuntime, SandboxEvent::BaseProbe(present)) => if present {
            post.stage == SandboxStage::CheckingLanguageRuntime && r.events@.len() == 1
                && progress_is(
                r.events@[0],
                "checking_language_runtime"@,
                "Checking Python in WSL... (Terminal windows may flash - this is normal)"@,
                50,
            ) && r.outcome is Continue
        } else {
            post.stage == SandboxStage::InstallingBaseRuntime && r.events@.len() == 1
                && progress_is(
                r.events@[0],
                "installing_base_runtime"@,
                "Installing WSL (this may take a few minutes). Terminal windows may appear - please don't close them."@,
                20,
            ) && r.outcome is Continue
        },
        (SandboxStage::InstallingBaseRuntime, SandboxEvent::BaseInstall(res)) => post.stage
            == SandboxStage::Failed && (r.outcome matches StepOutcome::Fail(e)
            && e matches SetupError::RestartRequired) && (match res {
            Ok(_) => r.events@.len() == 1 && progress_is(
                r.events@[0],
                "base_runtime_installed"@,
                "WSL installed. System restart may be required."@,
                40,
            ),
            Err(_) => r.events@.len() == 0,
        }),
        (SandboxStage::CheckingLanguageRuntime, SandboxEvent::LangProbe(present)) => if present {
            post.stage == SandboxStage::CheckingLibrarySet && r.events@.len() == 1 && progress_is(
                r.events@[0],
                "checking_library_set"@,
                checking_libs_message(pre.profile),
                70,
            ) && r.outcome is Continue
        } else {
            post.stage == SandboxStage::InstallingLanguageRuntime && r.events@.len() == 1
                && progress_is(
                r.events@[0],
                "installing_language_runtime"@,
                "Installing Python in WSL... Please wait, terminal windows may appear."@,
                60,
            ) && r.outcome is Continue
        },
        (SandboxStage::InstallingLanguageRuntime, SandboxEvent::LangInstall(res)) => match res {
            Ok(_) => post.stage == SandboxStage::CheckingLibrarySet && r.events@.len() == 1
                && progress_is(
                r.events@[0],
                "checking_library_set"@,
                checking_libs_message(pre.profile),
                70,
            ) && r.outcome is Continue,
            Err(e) => post.stage == SandboxStage::Failed && r.events@.len() == 0 && (
            r.outcome matches StepOutcome::Fail(f) && (f matches SetupError::StepFailed(m) && m@
                == e@)),
        },
        (SandboxStage::CheckingLibrarySet, SandboxEvent::LibsProbe(usable)) => if usable {
            post.stage == SandboxStage::ConfiguringEnvironment && r.events@.len() == 1
                && progress_is(
                r.events@[0],
                "configuring_environment"@,
                "Configuring time synchronization..."@,
                90,
            ) && r.outcome is Continue
        } else {
            post.stage == SandboxStage::InstallingLibrarySet && r.events@.len() == 1
                && progress_is(
                r.events@[0],
                "installing_library_set"@,
                installing_libs_message(pre.profile),
                80,
            ) && r.outcome is Continue
        },
        (SandboxStage::InstallingLibrarySet, SandboxEvent::LibsInstall(res)) => match res {
            Ok(_) => post.stage == SandboxStage::ConfiguringEnvironment && r.events@.len() == 1
                && progress_is(
                r.events@[0],
                "configuring_environment"@,
                "Configuring time synchronization..."@,
                90,
            ) && r.outcome is Continue,
            Err(e) => post.stage == SandboxStage::Failed && r.events@.len() == 0 && (
            r.outcome matches StepOutcome::Fail(f) && (f matches SetupError::StepFailed(m) && m@
                == e@)),
        },
        (SandboxStage::ConfiguringEnvironment, SandboxEvent::Configured) => post.stage
            == SandboxStage::Complete && r.events@.len() == 1 && progress_is(
            r.events@[0],
            "complete"@,
            sandbox_complete_message(pre.profile),
            100,
        ) && (r.outcome matches StepOutcome::Done(m) && m@ == sandbox_done_message(pre.profile)),
        _ => false,
    }
}

/// The event kind expected for each pending action.
pub open spec fn sandbox_event_fits(stage: SandboxStage, ev: SandboxEvent) -> bool {
    match (stage, ev) {
        (SandboxStage::CheckingBaseRuntime, SandboxEvent::BaseProbe(_)) => true,
        (SandboxStage::InstallingBaseRuntime, SandboxEvent::BaseInstall(_)) => true,
        (SandboxStage::CheckingLanguageRuntime, SandboxEvent::LangProbe(_)) => true,
        (SandboxStage::InstallingLanguageRuntime, SandboxEvent::LangInstall(_)) => true,
        (SandboxStage::CheckingLibrarySet, SandboxEvent::LibsProbe(_)) => true,
        (SandboxStage::InstallingLibrarySet, SandboxEvent::LibsInstall(_)) => true,
        (SandboxStage::ConfiguringEnvironment, SandboxEvent::Configured) => true,
        _ => false,
    }
}

impl SandboxWorkflow {
    /// Start the workflow; the first probe's entry event is owed at once.
    pub fn begin(profile: Profile) -> (r: (SandboxWorkflow, SetupProgress))
        ensures
            r.0.stage == SandboxStage::CheckingBaseRuntime,
            r.0.profile == profile,
            progress_is(
                r.1,
                "checking_base_runtime"@,
                "Checking WSL installation... (Terminal windows may open/close - this is normal)"@,
                10,
            ),
    {
        let m = SandboxWorkflow { stage: SandboxStage::CheckingBaseRuntime, profile };
        let ev = SetupProgress {
            stage: String::from_str("checking_base_runtime"),
            message: String::from_str(
                "Checking WSL installation... (Terminal windows may open/close - this is normal)",
            ),
            progress: 10,
        };
        (m, ev)
    }

    /// The action the host must perform for the current stage.
    pub fn pending(&self) -> (a: Option<SandboxAction>)
        ensures
            self.stage == SandboxStage::CheckingBaseRuntime ==> a == Some(
                SandboxAction::ProbeBaseRuntime,
            ),
            self.stage == SandboxStage::InstallingBaseRuntime ==> a == Some(
                SandboxAction::InstallBaseRuntime,
            ),
            self.stage == SandboxStage::CheckingLanguageRuntime ==> a == Some(
                SandboxAction::ProbeLanguageRuntime,
            ),
            self.stage == SandboxStage::InstallingLanguageRuntime ==> a == Some(
                SandboxAction::InstallLanguageRuntime,
            ),
            self.stage == SandboxStage::CheckingLibrarySet ==> a == Some(
                SandboxAction::ProbeLibrarySet,
            ),
            self.stage == SandboxStage::InstallingLibrarySet ==> a == Some(
                SandboxAction::InstallLibrarySet,
            ),
            self.stage == SandboxStage::ConfiguringEnvironment ==> a == Some(
                SandboxAction::ConfigureEnvironment,
            ),
            self.stage == SandboxStage::Complete || self.stage == SandboxStage::Failed ==> a
                is None,
    {
        match self.stage {
            SandboxStage::CheckingBaseRuntime => Some(SandboxAction::ProbeBaseRuntime),
            SandboxStage::InstallingBaseRuntime => Some(SandboxAction::InstallBaseRuntime),
            SandboxStage::CheckingLanguageRuntime => Some(SandboxAction::ProbeLanguageRuntime),
            SandboxStage::InstallingLanguageRuntime => Some(
                SandboxAction::InstallLanguageRuntime,
            ),
            SandboxStage::CheckingLibrarySet => Some(SandboxAction::ProbeLibrarySet),
            SandboxStage::InstallingLibrarySet => Some(SandboxAction::InstallLibrarySet),
            SandboxStage::ConfiguringEnvironment => Some(SandboxAction::ConfigureEnvironment),
            SandboxStage::Complete => None,
            SandboxStage::Failed => None,
        }
    }

    /// Apply the host's observation for the pending action.
    pub fn step(&mut self, ev: SandboxEvent) -> (r: StepResult)
        requires
            sandbox_event_fits(old(self).stage, ev),
        ensures
            sandbox_step_spec(*old(self), ev, *final(self), r),
    {
        let profile = self.profile;
        match ev {
            SandboxEvent::BaseProbe(present) => {
                if present {
                    self.stage = SandboxStage::CheckingLanguageRuntime;
                    StepResult {
                        events: one_event(
                            "checking_language_runtime",
                            "Checking Python in WSL... (Terminal windows may flash - this is normal)",
                            50,
                        ),
                        outcome: StepOutcome::Continue,
                    }
                } else {
                    self.stage = SandboxStage::InstallingBaseRuntime;
                    StepResult {
                        events: one_event(
                            "installing_base_runtime",
                            "Installing WSL (this may take a few minutes). Terminal windows may appear - please don't close them.",
                            20,
                        ),
                        outcome: StepOutcome::Continue,
                    }
                }
            },
            SandboxEvent::BaseInstall(res) => {
                self.stage = SandboxStage::Failed;
                let events = match res {
                    Ok(_) => one_event(
                        "base_runtime_installed",
                        "WSL installed. System restart may be required.",
                        40,
                    ),
                    Err(_) => Vec::new(),
                };
                StepResult { events, outcome: StepOutcome::Fail(SetupError::RestartRequired) }
            },
            SandboxEvent::LangProbe(present) => {
                if present {
                    self.stage = SandboxStage::CheckingLibrarySet;
                    StepResult {
                        events: checking_libs_event(profile),
                        outcome: StepOutcome::Continue,
                    }
                } else {
                    self.stage = SandboxStage::InstallingLanguageRuntime;
                    StepResult {
                        events: one_event(
                            "installing_language_runtime",
                            "Installing Python in WSL... Please wait, terminal windows may appear.",
                            60,
                        ),
                        outcome: StepOutcome::Continue,
                    }
                }
            },
            SandboxEvent::LangInstall(res) => {
                match res {
                    Ok(_) => {
                        self.stage = SandboxStage::CheckingLibrarySet;
                        StepResult {
                            events: checking_libs_event(profile),
                            outcome: StepOutcome::Continue,
                        }
                    },
                    Err(e) => {
                        self.stage = SandboxStage::Failed;
                        StepResult {
                            events: Vec::new(),
                            outcome: StepOutcome::Fail(SetupError::StepFailed(e)),
                        }
                    },
                }
            },
            SandboxEvent::LibsProbe(usable) => {
                if usable {
                    self.stage = SandboxStage::ConfiguringEnvironment;
                    StepResult {
                        events: one_event(
                            "configuring_environment",
                            "Configuring time synchronization...",
                            90,
                        ),
                        outcome: StepOutcome::Continue,
                    }
                } else {
                    self.stage = SandboxStage::InstallingLibrarySet;
                    StepResult {
                        events: installing_libs_event(profile),
                        outcome: StepOutcome::Continue,
                    }
                }
            },
            SandboxEvent::LibsInstall(res) => {
                match res {
                    Ok(_) => {
                        self.stage = SandboxStage::ConfiguringEnvironment;
                        StepResult {
                            events: one_event(
                                "configuring_environment",
                                "Configuring time synchronization...",
                                90,
                            ),
                            outcome: StepOutcome::Continue,
                        }
                    },
                    Err(e) => {
                        self.stage = SandboxStage::Failed;
                        StepResult {
                            events: Vec::new(),
                            outcome: StepOutcome::Fail(SetupError::StepFailed(e)),
                        }
                    },
                }
            },
            SandboxEvent::Configured => {
                self.stage = SandboxStage::Complete;
                let done = match profile {
                    Profile::Hosting => String::from_str("WSL environment is ready for Petals"),
                    Profile::ClientOnly => String::from_str(
                        "WSL environment is ready for Petals inference",
                    ),
                };
                let complete_msg = match profile {
                    Profile::Hosting => "WSL environment setup complete! You can now share your GPU.",
                    Profile::ClientOnly => "WSL environment setup complete! You can now use Direct Mode.",
                };
                StepResult {
                    events: one_event("complete", complete_msg, 100),
                    outcome: StepOutcome::Done(done),
                }
            },
        }
    }
}

/// Build a single-event list.
fn one_event(stage: &str, message: &str, progress: u8) -> (r: Vec<SetupProgress>)
    ensures
        r@.len() == 1,
        progress_is(r@[0], stage@, message@, progress as int),
{
    let mut v: Vec<SetupProgress> = Vec::new();
    v.push(
        SetupProgress {
            stage: String::from_str(stage),
            message: String::from_str(message),
            progress,
        },
    );
    v
}

fn checking_libs_event(profile: Profile) -> (r: Vec<SetupProgress>)
    ensures
        r@.len() == 1,
        progress_is(r@[0], "checking_library_set"@, checking_libs_message(profile), 70),
{
    match profile {
        Profile::Hosting => one_event(
            "checking_library_set",
            "Checking Petals library... (Don't close any terminal windows that appear)",
            70,
        ),
        Profile::ClientOnly => one_event(
            "checking_library_set",
            "Checking Petals library for inference... (Don't close any terminal windows that appear)",
            70,
        ),
    }
}

fn installing_libs_event(profile: Profile) -> (r: Vec<SetupProgress>)
    ensures
        r@.len() == 1,
        progress_is(r@[0], "installing_library_set"@, installing_libs_message(profile), 80),
{
    match profile {
        Profile::Hosting => one_event(
            "installing_library_set",
            "Installing Petals (~3GB download, 5-10 min). Terminal windows will open/close automatically - please wait...",
            80,
        ),
        Profile::ClientOnly => one_event(
            "installing_library_set",
            "Installing Petals for inference (minimal dependencies)...",
            80,
        ),
    }
}

/// The stages of the container-path workflow, traversed strictly in order.
/// It has extra pre-stages: the container runtime and its background
/// service are verified before anything else, and a local worker image is
/// built if absent.
#[derive(PartialEq, Eq, Structural, Clone, Copy, Debug)]
pub enum ContainerStage {
    CheckingContainerRuntime,
    CheckingService,
    CheckingLanguageRuntime,
    CheckingPackageManager,
    InstallingLanguageRuntime,
    CheckingLibrarySet,
    InstallingLibrarySet,
    VerifyingLibrarySet,
    CheckingImage,
    BuildingImage,
    SyncingClock,
    Complete,
    Failed,
}

/// What the host must do next for the container-path workflow.
#[derive(PartialEq, Eq, Structural, Clone, Copy, Debug)]
pub enum ContainerAction {
    ProbeContainerRuntime,
    ProbeService,
    ProbeLanguageRuntime,
    ProbePackageManager,
    InstallLanguageRuntime,
    ProbeLibrarySet,
    InstallLibrarySet,
    VerifyLibrarySet,
    ProbeImage,
    BuildImage,
    SyncClock,
}

/// What the host observed for the pending container-path action.
pub enum ContainerEvent {
    RuntimeProbe(bool),
    /// The desktop-process lookup and the daemon readiness check (the
    /// latter already under its bounded retries).
    ServiceProbe { desktop_running: bool, daemon_ok: bool },
    LangProbe(bool),
    PackageManagerProbe(bool),
    LangInstall(Result<(), String>),
    LibsProbe(bool),
    LibsInstall(Result<(), String>),
    /// The advisory re-check after a library install; never fatal.
    LibsVerify(bool),
    ImageProbe(bool),
    ImageBuild(Result<(), String>),
    /// The idempotent clock sync; its failures are swallowed.
    ClockSynced,
}

/// The container-path provisioning workflow.
pub struct ContainerWorkflow {
    pub stage: ContainerStage,
    /// Where the image build runs from; quoted in remediation text.
    pub project_root: String,
}

/// The event kind expected for each container-path stage.
pub open spec fn container_event_fits(stage: ContainerStage, ev: ContainerEvent) -> bool {
    match (stage, ev) {
        (ContainerStage::CheckingContainerRuntime, ContainerEvent::RuntimeProbe(_)) => true,
        (ContainerStage::CheckingService, ContainerEvent::ServiceProbe { .. }) => true,
        (ContainerStage::CheckingLanguageRuntime, ContainerEvent::LangProbe(_)) => true,
        (ContainerStage::CheckingPackageManager, ContainerEvent::PackageManagerProbe(_)) => true,
        (ContainerStage::InstallingLanguageRuntime, ContainerEvent::LangInstall(_)) => true,
        (ContainerStage::CheckingLibrarySet, ContainerEvent::LibsProbe(_)) => true,
        (ContainerStage::InstallingLibrarySet, ContainerEvent::LibsInstall(_)) => true,
        (ContainerStage::VerifyingLibrarySet, ContainerEvent::LibsVerify(_)) => true,
        (ContainerStage::CheckingImage, ContainerEvent::ImageProbe(_)) => true,
        (ContainerStage::BuildingImage, ContainerEvent::ImageBuild(_)) => true,
        (ContainerStage::SyncingClock, ContainerEvent::ClockSynced) => true,
        _ => false,
    }
}

/// The language-runtime-found events: the runtime is ready, move on to the
/// library probe.
pub open spec fn lang_ok_events(events: Seq<SetupProgress>) -> bool {
    events.len() == 2 && progress_is(
        events[0],
        "language_runtime_ok"@,
        "Python 3 ready for inference"@,
        70,
    ) && progress_is(
        events[1],
        "checking_library_set"@,
        "Checking Petals for direct inference..."@,
        75,
    )
}

/// The image-ready events: announce the image, then enter the clock sync.
pub open spec fn image_ready_events(events: Seq<SetupProgress>, message: Seq<char>) -> bool {
    events.len() == 2 && progress_is(events[0], "image_ready"@, message, 95) && progress_is(
        events[1],
        "sync_time"@,
        "Synchronizing system time..."@,
        97,
    )
}

/// The full step relation of the container-path machine.
pub open spec fn container_step_spec(
    pre: ContainerWorkflow,
    ev: ContainerEvent,
    post: ContainerWorkflow,
    r: StepResult,
) -> bool {
    post.project_root@ == pre.project_root@ && match (pre.stage, ev) {
        (ContainerStage::CheckingContainerRuntime, ContainerEvent::RuntimeProbe(present)) => if present {
            post.stage == ContainerStage::CheckingService && r.events@.len() == 2 && progress_is(
                r.events@[0],
                "container_runtime_ok"@,
                "Docker found"@,
                25,
            ) && progress_is(
                r.events@[1],
                "checking_service"@,
                "Checking if Docker is running (this may take a few seconds)..."@,
                30,
            ) && r.outcome is Continue
        } else {
            post.stage == ContainerStage::Failed && r.events@.len() == 1 && progress_is(
                r.events@[0],
                "container_runtime_missing"@,
                "Docker not found"@,
                15,
            ) && (r.outcome matches StepOutcome::Fail(e)
                && e matches SetupError::ContainerRuntimeMissing)
        },
        (
            ContainerStage::CheckingService,
            ContainerEvent::ServiceProbe { desktop_running, daemon_ok },
        ) => {
            let lead: int = if desktop_running {
                0
            } else {
                1
            };
            (!desktop_running ==> (r.events@.len() >= 1 && progress_is(
                r.events@[0],
                "service_not_running"@,
                "Docker Desktop app not running"@,
                32,
            ))) && (if daemon_ok {
                post.stage == ContainerStage::CheckingLanguageRuntime && r.events@.len() == lead + 2
                    && progress_is(r.events@[lead], "service_running"@, "Docker is running"@, 40)
                    && progress_is(
                    r.events@[lead + 1],
                    "checking_language_runtime"@,
                    "Checking Python for direct inference..."@,
                    50,
                ) && r.outcome is Continue
            } else {
                post.stage == ContainerStage::Failed && r.events@.len() == lead + 1 && progress_is(
                    r.events@[lead],
                    "service_unreachable"@,
                    "Docker daemon not responding"@,
                    35,
                ) && (r.outcome matches StepOutcome::Fail(e) && (
                e matches SetupError::ServiceUnavailable { desktop_running: d, project_root: p }
                    && d == desktop_running && p@ == pre.project_root@))
            })
        },
        (ContainerStage::CheckingLanguageRuntime, ContainerEvent::LangProbe(present)) => if present {
            post.stage == ContainerStage::CheckingLibrarySet && lang_ok_events(r.events@)
                && r.outcome is Continue
        } else {
            post.stage == ContainerStage::CheckingPackageManager && r.events@.len() == 1
                && progress_is(
                r.events@[0],
                "checking_package_manager"@,
                "Need Homebrew to install Python..."@,
                55,
            ) && r.outcome is Continue
        },
        (ContainerStage::CheckingPackageManager, ContainerEvent::PackageManagerProbe(present)) => if present {
            post.stage == ContainerStage::InstallingLanguageRuntime && r.events@.len() == 1
                && progress_is(
                r.events@[0],
                "installing_language_runtime"@,
                "Installing Python 3 via Homebrew..."@,
                60,
            ) && r.outcome is Continue
        } else {
            post.stage == ContainerStage::Failed && r.events@.len() == 0 && (
            r.outcome matches StepOutcome::Fail(e)
                && e matches SetupError::PackageManagerMissing)
        },
        (ContainerStage::InstallingLanguageRuntime, ContainerEvent::LangInstall(res)) => match res {
            Ok(_) => post.stage == ContainerStage::CheckingLibrarySet && lang_ok_events(r.events@)
                && r.outcome is Continue,
            Err(e) => post.stage == ContainerStage::Failed && r.events@.len() == 0 && (
            r.outcome matches StepOutcome::Fail(f) && (f matches SetupError::StepFailed(m) && m@
                == e@)),
        },
        (ContainerStage::CheckingLibrarySet, ContainerEvent::LibsProbe(usable)) => if usable {
            post.stage == ContainerStage::CheckingImage && r.events@.len() == 1 && progress_is(
                r.events@[0],
                "checking_image"@,
                "Checking Docker image for GPU sharing..."@,
                88,
            ) && r.outcome is Continue
        } else {
            post.stage == ContainerStage::InstallingLibrarySet && r.events@.len() == 1
                && progress_is(
                r.events@[0],
                "installing_library_set"@,
                "Installing Petals for direct inference (3-5 minutes)..."@,
                80,
            ) && r.outcome is Continue
        },
        (ContainerStage::InstallingLibrarySet, ContainerEvent::LibsInstall(res)) => match res {
            Ok(_) => post.stage == ContainerStage::VerifyingLibrarySet && r.events@.len() == 1
                && progress_is(
                r.events@[0],
                "verifying_library_set"@,
                "Verifying Petals installation..."@,
                85,
            ) && r.outcome is Continue,
            Err(e) => post.stage == ContainerStage::Failed && r.events@.len() == 0 && (
            r.outcome matches StepOutcome::Fail(f) && (f matches SetupError::StepFailed(m) && m@
                == e@)),
        },
        (ContainerStage::VerifyingLibrarySet, ContainerEvent::LibsVerify(_)) => post.stage
            == ContainerStage::CheckingImage && r.events@.len() == 1 && progress_is(
            r.events@[0],
            "checking_image"@,
            "Checking Docker image for GPU sharing..."@,
            88,
        ) && r.outcome is Continue,
        (ContainerStage::CheckingImage, ContainerEvent::ImageProbe(exists)) => if exists {
            post.stage == ContainerStage::SyncingClock && image_ready_events(
                r.events@,
                "Docker image ready"@,
            ) && r.outcome is Continue
        } else {
            post.stage == ContainerStage::BuildingImage && r.events@.len() == 1 && progress_is(
                r.events@[0],
                "building_image"@,
                "Building Docker image (5-10 minutes, one-time setup)..."@,
                90,
            ) && r.outcome is Continue
        },
        (ContainerStage::BuildingImage, ContainerEvent::ImageBuild(res)) => match res {
            Ok(_) => post.stage == ContainerStage::SyncingClock && image_ready_events(
                r.events@,
                "Docker image built successfully"@,
            ) && r.outcome is Continue,
            Err(e) => post.stage == ContainerStage::Failed && r.events@.len() == 0 && (
            r.outcome matches StepOutcome::Fail(f) && (f matches SetupError::StepFailed(m) && m@
                == e@)),
        },
        (ContainerStage::SyncingClock, ContainerEvent::ClockSynced) => post.stage
            == ContainerStage::Complete && r.events@.len() == 1 && progress_is(
            r.events@[0],
            "complete"@,
            "macOS environment ready! GPU sharing will use Docker."@,
            100,
        ) && (r.outcome matches StepOutcome::Done(m) && m@
            == "macOS environment is ready. GPU sharing will run in Docker container."@),
        _ => false,
    }
}

impl ContainerWorkflow {
    /// Start the workflow; the first probe's entry event is owed at once.
    pub fn begin(project_root: String) -> (r: (ContainerWorkflow, SetupProgress))
        ensures
            r.0.stage == ContainerStage::CheckingContainerRuntime,
            r.0.project_root@ == project_root@,
            progress_is(
                r.1,
                "checking_container_runtime"@,
                "Checking Docker installation..."@,
                10,
            ),
    {
        let m = ContainerWorkflow { stage: ContainerStage::CheckingContainerRuntime, project_root };
        let ev = SetupProgress {
            stage: String::from_str("checking_container_runtime"),
            message: String::from_str("Checking Docker installation..."),
            progress: 10,
        };
        (m, ev)
    }

    /// The action the host must perform for the current stage.
    pub fn pending(&self) -> (a: Option<ContainerAction>)
        ensures
            self.stage == ContainerStage::CheckingContainerRuntime ==> a == Some(
                ContainerAction::ProbeContainerRuntime,
            ),
            self.stage == ContainerStage::CheckingService ==> a == Some(
                ContainerAction::ProbeService,
            ),
            self.stage == ContainerStage::CheckingLanguageRuntime ==> a == Some(
                ContainerAction::ProbeLanguageRuntime,
            ),
            self.stage == ContainerStage::CheckingPackageManager ==> a == Some(
                ContainerAction::ProbePackageManager,
            ),
            self.stage == ContainerStage::InstallingLanguageRuntime ==> a == Some(
                ContainerAction::InstallLanguageRuntime,
            ),
            self.stage == ContainerStage::CheckingLibrarySet ==> a == Some(
                ContainerAction::ProbeLibrarySet,
            ),
            self.stage == ContainerStage::InstallingLibrarySet ==> a == Some(
                ContainerAction::InstallLibrarySet,
            ),
            self.stage == ContainerStage::VerifyingLibrarySet ==> a == Some(
                ContainerAction::VerifyLibrarySet,
            ),
            self.stage == ContainerStage::CheckingImage ==> a == Some(ContainerAction::ProbeImage),
            self.stage == ContainerStage::BuildingImage ==> a == Some(ContainerAction::BuildImage),
            self.stage == ContainerStage::SyncingClock ==> a == Some(ContainerAction::SyncClock),
            self.stage == ContainerStage::Complete || self.stage == ContainerStage::Failed ==> a
                is None,
    {
        match self.stage {
            ContainerStage::CheckingContainerRuntime => Some(
                ContainerAction::ProbeContainerRuntime,
            ),
            ContainerStage::CheckingService => Some(ContainerAction::ProbeService),
            ContainerStage::CheckingLanguageRuntime => Some(ContainerAction::ProbeLanguageRuntime),
            ContainerStage::CheckingPackageManager => Some(ContainerAction::ProbePackageManager),
            ContainerStage::InstallingLanguageRuntime => Some(
                ContainerAction::InstallLanguageRuntime,
            ),
            ContainerStage::CheckingLibrarySet => Some(ContainerAction::ProbeLibrarySet),
            ContainerStage::InstallingLibrarySet => Some(ContainerAction::InstallLibrarySet),
            ContainerStage::VerifyingLibrarySet => Some(ContainerAction::VerifyLibrarySet),
            ContainerStage::CheckingImage => Some(ContainerAction::ProbeImage),
            ContainerStage::BuildingImage => Some(ContainerAction::BuildImage),
            ContainerStage::SyncingClock => Some(ContainerAction::SyncClock),
            ContainerStage::Complete => None,
            ContainerStage::Failed => None,
        }
    }

    /// Apply the host's observation for the pending action.
    pub fn step(&mut self, ev: ContainerEvent) -> (r: StepResult)
        requires
            container_event_fits(old(self).stage, ev),
        ensures
            container_step_spec(*old(self), ev, *final(self), r),
    {
        match ev {
            ContainerEvent::RuntimeProbe(present) => {
                if present {
                    self.stage = ContainerStage::CheckingService;
                    let mut events = one_event("container_runtime_ok", "Docker found", 25);
                    events.push(
                        SetupProgress {
                            stage: String::from_str("checking_service"),
                            message: String::from_str(
                                "Checking if Docker is running (this may take a few seconds)...",
                            ),
                            progress: 30,
                        },
                    );
                    StepResult { events, outcome: StepOutcome::Continue }
                } else {
                    self.stage = ContainerStage::Failed;
                    StepResult {
                        events: one_event("container_runtime_missing", "Docker not found", 15),
                        outcome: StepOutcome::Fail(SetupError::ContainerRuntimeMissing),
                    }
                }
            },
            ContainerEvent::ServiceProbe { desktop_running, daemon_ok } => {
                let mut events: Vec<SetupProgress> = Vec::new();
                if !desktop_running {
                    events.push(
                        SetupProgress {
                            stage: String::from_str("service_not_running"),
                            message: String::from_str("Docker Desktop app not running"),
                            progress: 32,
                        },
                    );
                }
                if daemon_ok {
                    self.stage = ContainerStage::CheckingLanguageRuntime;
                    events.push(
                        SetupProgress {
                            stage: String::from_str("service_running"),
                            message: String::from_str("Docker is running"),
                            progress: 40,
                        },
                    );
                    events.push(
                        SetupProgress {
                            stage: String::from_str("checking_language_runtime"),
                            message: String::from_str("Checking Python for direct inference..."),
                            progress: 50,
                        },
                    );
                    StepResult { events, outcome: StepOutcome::Continue }
                } else {
                    self.stage = ContainerStage::Failed;
                    events.push(
                        SetupProgress {
                            stage: String::from_str("service_unreachable"),
                            message: String::from_str("Docker daemon not responding"),
                            progress: 35,
                        },
                    );
                    StepResult {
                        events,
                        outcome: StepOutcome::Fail(
                            SetupError::ServiceUnavailable {
                                desktop_running,
                                project_root: self.project_root.clone(),
                            },
                        ),
                    }
                }
            },
            ContainerEvent::LangProbe(present) => {
                if present {
                    self.stage = ContainerStage::CheckingLibrarySet;
                    StepResult { events: lang_ready_events(), outcome: StepOutcome::Continue }
                } else {
                    self.stage = ContainerStage::CheckingPackageManager;
                    StepResult {
                        events: one_event(
                            "checking_package_manager",
                            "Need Homebrew to install Python...",
                            55,
                        ),
                        outcome: StepOutcome::Continue,
                    }
                }
            },
            ContainerEvent::PackageManagerProbe(present) => {
                if present {
                    self.stage = ContainerStage::InstallingLanguageRuntime;
                    StepResult {
                        events: one_event(
                            "installing_language_runtime",
                            "Installing Python 3 via Homebrew...",
                            60,
                        ),
                        outcome: StepOutcome::Continue,
                    }
                } else {
                    self.stage = ContainerStage::Failed;
                    StepResult {
                        events: Vec::new(),
                        outcome: StepOutcome::Fail(SetupError::PackageManagerMissing),
                    }
                }
            },
            ContainerEvent::LangInstall(res) => {
                match res {
                    Ok(_) => {
                        self.stage = ContainerStage::CheckingLibrarySet;
                        StepResult { events: lang_ready_events(), outcome: StepOutcome::Continue }
                    },
                    Err(e) => {
                        self.stage = ContainerStage::Failed;
                        StepResult {
                            events: Vec::new(),
                            outcome: StepOutcome::Fail(SetupError::StepFailed(e)),
                        }
                    },
                }
            },
            ContainerEvent::LibsProbe(usable) => {
                if usable {
                    self.stage = ContainerStage::CheckingImage;
                    StepResult {
                        events: one_event(
                            "checking_image",
                            "Checking Docker image for GPU sharing...",
                            88,
                        ),
                        outcome: StepOutcome::Continue,
                    }
                } else {
                    self.stage = ContainerStage::InstallingLibrarySet;
                    StepResult {
                        events: one_event(
                            "installing_library_set",
                            "Installing Petals for direct inference (3-5 minutes)...",
                            80,
                        ),
                        outcome: StepOutcome::Continue,
                    }
                }
            },
            ContainerEvent::LibsInstall(res) => {
                match res {
                    Ok(_) => {
                        self.stage = ContainerStage::VerifyingLibrarySet;
                        StepResult {
                            events: one_event(
                                "verifying_library_set",
                                "Verifying Petals installation...",
                                85,
                            ),
                            outcome: StepOutcome::Continue,
                        }
                    },
                    Err(e) => {
                        self.stage = ContainerStage::Failed;
                        StepResult {
                            events: Vec::new(),
                            outcome: StepOutcome::Fail(SetupError::StepFailed(e)),
                        }
                    },
                }
            },
            ContainerEvent::LibsVerify(_) => {
                self.stage = ContainerStage::CheckingImage;
                StepResult {
                    events: one_event(
                        "checking_image",
                        "Checking Docker image for GPU sharing...",
                        88,
                    ),
                    outcome: StepOutcome::Continue,
                }
            },
            ContainerEvent::ImageProbe(exists) => {
                if exists {
                    self.stage = ContainerStage::SyncingClock;
                    StepResult {
                        events: image_events("Docker image ready"),
                        outcome: StepOutcome::Continue,
                    }
                } else {
                    self.stage = ContainerStage::BuildingImage;
                    StepResult {
                        events: one_event(
                            "building_image",
                            "Building Docker image (5-10 minutes, one-time setup)...",
                            90,
                        ),
                        outcome: StepOutcome::Continue,
                    }
                }
            },
            ContainerEvent::ImageBuild(res) => {
                match res {
                    Ok(_) => {
                        self.stage = ContainerStage::SyncingClock;
                        StepResult {
                            events: image_events("Docker image built successfully"),
                            outcome: StepOutcome::Continue,
                        }
                    },
                    Err(e) => {
                        self.stage = ContainerStage::Failed;
                        StepResult {
                            events: Vec::new(),
                            outcome: StepOutcome::Fail(SetupError::StepFailed(e)),
                        }
                    },
                }
            },
            ContainerEvent::ClockSynced => {
                self.stage = ContainerStage::Complete;
                StepResult {
                    events: one_event(
                        "complete",
                        "macOS environment ready! GPU sharing will use Docker.",
                        100,
                    ),
                    outcome: StepOutcome::Done(
                        String::from_str(
                            "macOS environment is ready. GPU sharing will run in Docker container.",
                        ),
                    ),
                }
            },
        }
    }
}

fn lang_ready_events() -> (r: Vec<SetupProgress>)
    ensures
        lang_ok_events(r@),
{
    let mut events = one_event("language_runtime_ok", "Python 3 ready for inference", 70);
    events.push(
        SetupProgress {
            stage: String::from_str("checking_library_set"),
            message: String::from_str("Checking Petals for direct inference..."),
            progress: 75,
        },
    );
    events
}

fn image_events(ready_message: &str) -> (r: Vec<SetupProgress>)
    ensures
        image_ready_events(r@, ready_message@),
{
    let mut events = one_event("image_ready", ready_message, 95);
    events.push(
        SetupProgress {
            stage: String::from_str("sync_time"),
            message: String::from_str("Synchronizing system time..."),
            progress: 97,
        },
    );
    events
}

/// The progress value at which a sandbox-path stage is entered.  Terminal
/// stages emit nothing further.
pub open spec fn sandbox_progress_floor(stage: SandboxStage) -> int {
    match stage {
        SandboxStage::CheckingBaseRuntime => 10,
        SandboxStage::InstallingBaseRuntime => 20,
        SandboxStage::CheckingLanguageRuntime => 50,
        SandboxStage::InstallingLanguageRuntime => 60,
        SandboxStage::CheckingLibrarySet => 70,
        SandboxStage::InstallingLibrarySet => 80,
        SandboxStage::ConfiguringEnvironment => 90,
        SandboxStage::Complete => 100,
        SandboxStage::Failed => 100,
    }
}

/// Law: progress is monotone along any sandbox-path run.  Every event a
/// step emits lies between the entry progress of the stage it leaves and
/// that of the stage it enters, and never above 100; so consecutive steps'
/// events never step backwards.
pub proof fn lemma_sandbox_progress_monotonic(
    pre: SandboxWorkflow,
    ev: SandboxEvent,
    post: SandboxWorkflow,
    r: StepResult,
)
    requires
        sandbox_step_spec(pre, ev, post, r),
    ensures
        forall|i: int|
            0 <= i < r.events@.len() ==> sandbox_progress_floor(pre.stage)
                <= #[trigger] r.events@[i].progress <= sandbox_progress_floor(post.stage),
        sandbox_progress_floor(pre.stage) <= sandbox_progress_floor(post.stage),
        forall|i: int| 0 <= i < r.events@.len() ==> #[trigger] r.events@[i].progress <= 100,
{
}

/// The progress value at which a container-path stage is entered.
pub open spec fn container_progress_floor(stage: ContainerStage) -> int {
    match stage {
        ContainerStage::CheckingContainerRuntime => 10,
        ContainerStage::CheckingService => 30,
        ContainerStage::CheckingLanguageRuntime => 50,
        ContainerStage::CheckingPackageManager => 55,
        ContainerStage::InstallingLanguageRuntime => 60,
        ContainerStage::CheckingLibrarySet => 75,
        ContainerStage::InstallingLibrarySet => 80,
        ContainerStage::VerifyingLibrarySet => 85,
        ContainerStage::CheckingImage => 88,
        ContainerStage::BuildingImage => 90,
        ContainerStage::SyncingClock => 97,
        ContainerStage::Complete => 100,
        ContainerStage::Failed => 100,
    }
}

/// Law: progress is monotone along any container-path run, as on the
/// sandbox path.
pub proof fn lemma_container_progress_monotonic(
    pre: ContainerWorkflow,
    ev: ContainerEvent,
    post: ContainerWorkflow,
    r: StepResult,
)
    requires
        container_step_spec(pre, ev, post, r),
    ensures
        forall|i: int|
            0 <= i < r.events@.len() ==> container_progress_floor(pre.stage)
                <= #[trigger] r.events@[i].progress <= container_progress_floor(post.stage),
        container_progress_floor(pre.stage) <= container_progress_floor(post.stage),
        forall|i: int| 0 <= i < r.events@.len() ==> #[trigger] r.events@[i].progress <= 100,
{
}

/// Law: when the base runtime was absent, the workflow installs it and
/// then terminates demanding a restart, whatever the install reported —
/// and neither step emits a completion event.
pub proof fn lemma_base_install_forces_restart(
    m0: SandboxWorkflow,
    probe_post: SandboxWorkflow,
    probe_result: StepResult,
    install_ev: SandboxEvent,
    install_post: SandboxWorkflow,
    install_result: StepResult,
)
    requires
        m0.stage == SandboxStage::CheckingBaseRuntime,
        sandbox_step_spec(m0, SandboxEvent::BaseProbe(false), probe_post, probe_result),
        install_ev matches SandboxEvent::BaseInstall(_),
        sandbox_step_spec(probe_post, install_ev, install_post, install_result),
    ensures
        install_result.outcome matches StepOutcome::Fail(e) && e matches SetupError::RestartRequired,
        install_post.stage == SandboxStage::Failed,
        forall|i: int|
            0 <= i < probe_result.events@.len() ==> probe_result.events@[i].stage@ != "complete"@,
        forall|i: int|
            0 <= i < install_result.events@.len() ==> install_result.events@[i].stage@
                != "complete"@,
{
    assert(probe_post.stage == SandboxStage::InstallingBaseRuntime);
    reveal_strlit("complete");
    reveal_strlit("installing_base_runtime");
    reveal_strlit("base_runtime_installed");
    assert(("complete")@.len() == 8);
    assert(("installing_base_runtime")@.len() == 23);
    assert(("base_runtime_installed")@.len() == 22);
    assert forall|i: int| 0 <= i < probe_result.events@.len() implies probe_result.events@[i].stage@
        != "complete"@ by {
        assert(i == 0);
        assert(probe_result.events@[0].stage@ == "installing_base_runtime"@);
    }
    assert forall|i: int|
        0 <= i < install_result.events@.len() implies install_result.events@[i].stage@
        != "complete"@ by {
        assert(i == 0);
        assert(install_result.events@[0].stage@ == "base_runtime_installed"@);
    }
}

} // verus!
