//! The build of one package, from the validation of its paths to the
//! artifact in the destination folder.
//!
//! A build in a container resolves the local dependencies of the package,
//! pulls the image, starts a container, copies the dependencies and then the
//! source code into it, runs the commands of the build, fetches the result
//! and writes it to the destination. Once the daemon was spoken to, the
//! removal of the container is asked for before the build ends, however the
//! build ends, and what comes of the removal never changes the outcome. A
//! build on this machine creates a temporary working folder, runs the steps
//! of the build and removes the folder.
//!
//! All input and output is done by a driver. The orchestrator tells it what
//! to do next and takes what came of it.

use vstd::prelude::*;
use crate::archive::{bytes_result_view, clone_files, files_of, files_view};
use crate::cargo::{
    build_contract, failure_of, host_failure, host_pipeline, host_steps_view,
    random_temp_dir_name, HostOutcome, HostOutcomeView, HostStep, HostStepView,
};
use crate::config::{BuildOptions, Config, ConfigView, DockerConfig, DockerOption, DockerOptionView};
use crate::docker::{
    build_contracts, container_spec, copy_files_from, docker_image_tag, fetched, image_of,
    image_reference,
    is_container_name, is_known_image_tag, output_folder, pipeline, pull_image, pull_succeeded,
    random_container_name, removal_spec, remove_container, requested_tag, start_container,
    statuses_view, steps_view, ContainerSpec, ContainerSpecView, PipelineStep, PullStatus, RemovalSpec,
    RemovalSpecView, StepView,
};
use crate::error::{text_result_view, Error, ErrorView};
use crate::manifests::{
    artifact_name, opt_manifest_view, package_name, package_name_in, wasm_file_name, Manifest,
    ManifestView,
};
use crate::text::{clone_texts, opt_view, texts};

verus! {

/// The states that a build passes through.
#[derive(Clone, Copy, Debug, PartialEq, Eq, Structural)]
pub enum Phase {
    /// The paths and the manifest are being validated.
    Init,
    /// The local dependencies are known; the container is being prepared.
    DependenciesResolved,
    /// The container runs; the source code is being copied into it.
    SandboxReady,
    /// The source code is in place; the commands of the build run.
    SourceTransferred,
    /// The commands have run; the result is being fetched and saved.
    Built,
    /// The artifact is saved; what the build used is being removed.
    ArtifactRetrieved,
    /// The build has ended with an artifact.
    Done,
    /// The build has failed.
    Failed,
}

/// What the orchestrator waits for.
#[derive(Clone, Copy, Debug, PartialEq, Eq, Structural)]
pub enum Stage {
    /// The destination folder.
    CreatingDestination,
    /// The absolute path of the source folder.
    ValidatingSource,
    /// The manifest of the package.
    ReadingManifest,
    /// The local dependencies of the package.
    ResolvingDependencies,
    /// The image.
    PullingImage,
    /// The container.
    StartingContainer,
    /// The copy of a folder into the container: of the next dependency, or
    /// of the source code once no dependency is left.
    CopyingFiles,
    /// The end of the next command, or the archive of the result once no
    /// command is left.
    Building,
    /// The files in the destination folder.
    WritingFiles,
    /// The removal of the container.
    RemovingContainer,
    /// The temporary working folder.
    CreatingTempDir,
    /// The end of the next step on this machine, or the removal of the
    /// temporary working folder once no step is left.
    HostBuilding,
    /// Nothing: the build has ended.
    Finished,
}

/// How writing the fetched files to the destination ended.
#[derive(Clone, Copy, Debug, PartialEq, Eq, Structural)]
pub enum WriteOutcome {
    /// Every file was written.
    Written,
    /// A file could not be created.
    CannotCreate,
    /// A file could not be written to.
    CannotWrite,
}

/// What the orchestrator asks of its driver.
#[derive(Debug, PartialEq, Eq)]
pub enum Action {
    /// Create the destination folder, with the folders above it.
    CreateDestination { path: String },
    /// Find the absolute, writable folder that the source path names.
    ValidateSource { path: String },
    /// Read the manifest in the folder `dir`, and see whether the folder
    /// holds a lock file.
    ReadManifest { dir: String },
    /// Find the local dependencies of the package in the folder `root`.
    ResolveDependencies { root: String },
    /// Pull the image.
    PullImage { image: String },
    /// Create the container and start it.
    StartContainer(ContainerSpec),
    /// Copy the folder `source_path` into the container.
    CopyFiles { container: String, source_path: String },
    /// Run the step in the container.
    Execute { container: String, step: PipelineStep },
    /// Fetch the folder `path` of the container as an archive.
    CopyFilesFrom { container: String, path: String },
    /// Write the files into the destination folder.
    WriteFiles { destination: String, files: Vec<(String, Vec<u8>)> },
    /// Remove the container.
    RemoveContainer(RemovalSpec),
    /// Create the temporary working folder `name`.
    CreateTempDir { name: String },
    /// Run the step on this machine.
    RunHostStep(HostStep),
    /// Remove the temporary working folder `name` with all it holds.
    RemoveTempDir { name: String },
    /// Nothing more: this is the file name of the artifact, or why there is
    /// none.
    Finish(Result<String, Error>),
}

/// What an [`Action`] denotes.
pub enum ActionView {
    CreateDestination { path: Seq<char> },
    ValidateSource { path: Seq<char> },
    ReadManifest { dir: Seq<char> },
    ResolveDependencies { root: Seq<char> },
    PullImage { image: Seq<char> },
    StartContainer(ContainerSpecView),
    CopyFiles { container: Seq<char>, source_path: Seq<char> },
    Execute { container: Seq<char>, step: StepView },
    CopyFilesFrom { container: Seq<char>, path: Seq<char> },
    WriteFiles { destination: Seq<char>, files: Seq<(Seq<char>, Seq<u8>)> },
    RemoveContainer(RemovalSpecView),
    CreateTempDir { name: Seq<char> },
    RunHostStep(HostStepView),
    RemoveTempDir { name: Seq<char> },
    Finish(Result<Seq<char>, ErrorView>),
}

impl View for Action {
    type V = ActionView;

    open spec fn view(&self) -> ActionView {
        match *self {
            Action::CreateDestination { path } => ActionView::CreateDestination { path: path@ },
            Action::ValidateSource { path } => ActionView::ValidateSource { path: path@ },
            Action::ReadManifest { dir } => ActionView::ReadManifest { dir: dir@ },
            Action::ResolveDependencies { root } => ActionView::ResolveDependencies {
                root: root@,
            },
            Action::PullImage { image } => ActionView::PullImage { image: image@ },
            Action::StartContainer(spec) => ActionView::StartContainer(spec@),
            Action::CopyFiles { container, source_path } => ActionView::CopyFiles {
                container: container@,
                source_path: source_path@,
            },
            Action::Execute { container, step } => ActionView::Execute {
                container: container@,
                step: step@,
            },
            Action::CopyFilesFrom { container, path } => ActionView::CopyFilesFrom {
                container: container@,
                path: path@,
            },
            Action::WriteFiles { destination, files } => ActionView::WriteFiles {
                destination: destination@,
                files: files_view(files@),
            },
            Action::RemoveContainer(spec) => ActionView::RemoveContainer(spec@),
            Action::CreateTempDir { name } => ActionView::CreateTempDir { name: name@ },
            Action::RunHostStep(step) => ActionView::RunHostStep(step@),
            Action::RemoveTempDir { name } => ActionView::RemoveTempDir { name: name@ },
            Action::Finish(r) => ActionView::Finish(text_result_view(r)),
        }
    }
}

/// What the driver of an orchestrator answers.
#[derive(Debug, PartialEq, Eq)]
pub enum Event {
    /// Whether the destination folder is there.
    DestinationCreated(bool),
    /// The absolute path of the source folder, or `None` where the source
    /// path names no absolute, writable folder.
    SourceValidated(Option<String>),
    /// The manifest of the package, or `None` where there is none that can be
    /// parsed; and whether the source folder holds a lock file.
    ManifestRead { manifest: Option<Manifest>, lock_file_exists: bool },
    /// The local dependencies of the package, or why they were not found.
    DependenciesResolved(Result<Vec<String>, Error>),
    /// What the daemon reported while it pulled the image, or `None` where it
    /// could not be reached.
    ImagePulled(Option<Vec<PullStatus>>),
    /// Whether the container was created and started.
    ContainerStarted(bool),
    /// Whether the folder was copied into the container.
    FilesCopied(bool),
    /// The output of the step, or why it failed.
    Executed(Result<String, Error>),
    /// The archive that was fetched, or the daemon's message where none was.
    Downloaded(Result<Vec<u8>, String>),
    /// How writing the files ended.
    FilesWritten(WriteOutcome),
    /// Whether the container was removed.
    ContainerRemoved(bool),
    /// Whether the temporary working folder was created.
    TempDirCreated(bool),
    /// How the step on this machine ended.
    HostStepFinished(HostOutcome),
    /// Whether the temporary working folder was removed.
    TempDirRemoved(bool),
}

/// What an [`Event`] denotes.
pub enum EventView {
    DestinationCreated(bool),
    SourceValidated(Option<Seq<char>>),
    ManifestRead { manifest: Option<ManifestView>, lock_file_exists: bool },
    DependenciesResolved(Result<Seq<Seq<char>>, ErrorView>),
    ImagePulled(Option<Seq<Option<Seq<char>>>>),
    ContainerStarted(bool),
    FilesCopied(bool),
    Executed(Result<Seq<char>, ErrorView>),
    Downloaded(Result<Seq<u8>, Seq<char>>),
    FilesWritten(WriteOutcome),
    ContainerRemoved(bool),
    TempDirCreated(bool),
    HostStepFinished(HostOutcomeView),
    TempDirRemoved(bool),
}

impl View for Event {
    type V = EventView;

    open spec fn view(&self) -> EventView {
        match *self {
            Event::DestinationCreated(ok) => EventView::DestinationCreated(ok),
            Event::SourceValidated(path) => EventView::SourceValidated(opt_view(path)),
            Event::ManifestRead { manifest, lock_file_exists } => EventView::ManifestRead {
                manifest: opt_manifest_view(manifest),
                lock_file_exists,
            },
            Event::DependenciesResolved(Ok(found)) => EventView::DependenciesResolved(
                Ok(texts(found@)),
            ),
            Event::DependenciesResolved(Err(e)) => EventView::DependenciesResolved(Err(e@)),
            Event::ImagePulled(statuses) => EventView::ImagePulled(statuses_view(statuses)),
            Event::ContainerStarted(ok) => EventView::ContainerStarted(ok),
            Event::FilesCopied(ok) => EventView::FilesCopied(ok),
            Event::Executed(r) => EventView::Executed(text_result_view(r)),
            Event::Downloaded(r) => EventView::Downloaded(bytes_result_view(r)),
            Event::FilesWritten(w) => EventView::FilesWritten(w),
            Event::ContainerRemoved(ok) => EventView::ContainerRemoved(ok),
            Event::TempDirCreated(ok) => EventView::TempDirCreated(ok),
            Event::HostStepFinished(o) => EventView::HostStepFinished(o@),
            Event::TempDirRemoved(ok) => EventView::TempDirRemoved(ok),
        }
    }
}

/// The build of one package.
pub struct Orchestrator {
    config: Config,
    stage: Stage,
    source: String,
    use_lock_file: bool,
    wasm_file: String,
    image_tag: String,
    container: String,
    dependencies: Vec<String>,
    steps: Vec<PipelineStep>,
    host_steps: Vec<HostStep>,
    build_log: Option<String>,
    files: Vec<(String, Vec<u8>)>,
    failure: Option<Error>,
    removal_failed: bool,
}

/// What an [`Orchestrator`] denotes.
pub struct OrchestratorView {
    /// What the caller chose for the build.
    pub config: ConfigView,
    /// What the orchestrator waits for.
    pub stage: Stage,
    /// The absolute path of the source folder.
    pub source: Seq<char>,
    /// Whether the lock file is honoured and kept with the artifact.
    pub use_lock_file: bool,
    /// The file name of the artifact.
    pub wasm_file: Seq<char>,
    /// The tag of the image.
    pub image_tag: Seq<char>,
    /// The name of the container, or of the temporary working folder.
    pub container: Seq<char>,
    /// The local dependencies that are still to copy into the container.
    pub dependencies: Seq<Seq<char>>,
    /// The commands that are still to run in the container.
    pub steps: Seq<StepView>,
    /// The steps that are still to run on this machine.
    pub host_steps: Seq<HostStepView>,
    /// The output of the compilation, once it has run.
    pub build_log: Option<Seq<char>>,
    /// The files that were fetched from the container.
    pub files: Seq<(Seq<char>, Seq<u8>)>,
    /// Why the build has failed, if it has.
    pub failure: Option<ErrorView>,
    /// Whether the container was left behind because it could not be removed.
    pub removal_failed: bool,
}

/// The message of the failure to create a file in the destination folder.
pub open spec fn cannot_create_message() -> Seq<char> {
    "Fail to access to destination path."@
}

/// The message of the failure to write a file in the destination folder.
pub open spec fn cannot_write_message() -> Seq<char> {
    "Fail to write the compiled contract to destination path."@
}

/// The log of the build so far: the output of the compilation, or nothing
/// before it has run.
pub open spec fn log_text(build_log: Option<Seq<char>>) -> Seq<char> {
    match build_log {
        Some(log) => log,
        None => Seq::empty(),
    }
}

/// The failure of the build that the failure `e` of a command amounts to. A
/// failure that carries a log carries the log of the build so far in front of
/// its own; any other stays as it is.
pub open spec fn with_build_log(e: ErrorView, build_log: Option<Seq<char>>) -> ErrorView {
    match e {
        ErrorView::BuildFailureWithLogs(log) => ErrorView::BuildFailureWithLogs(
            log_text(build_log) + log,
        ),
        _ => e,
    }
}

impl OrchestratorView {
    /// The state in which the build that `config` describes begins, with
    /// `name` for its container or its temporary working folder.
    pub open spec fn initial(config: ConfigView, name: Seq<char>) -> OrchestratorView {
        OrchestratorView {
            config,
            stage: if config.destination_path is Some {
                Stage::CreatingDestination
            } else {
                Stage::ValidatingSource
            },
            source: Seq::empty(),
            use_lock_file: false,
            wasm_file: Seq::empty(),
            image_tag: Seq::empty(),
            container: name,
            dependencies: Seq::empty(),
            steps: Seq::empty(),
            host_steps: Seq::empty(),
            build_log: None,
            files: Seq::empty(),
            failure: None,
            removal_failed: false,
        }
    }

    /// What the user is warned of: that the build has succeeded and has left
    /// its container behind, which could not be removed. A warning is no
    /// failure, and a build that has failed carries none.
    pub open spec fn warning(self) -> Option<ErrorView> {
        if self.removal_failed && self.failure is None {
            Some(ErrorView::ArtifactRemovalFailure)
        } else {
            None
        }
    }

    /// The outcome of the build as it stands: the file name of the artifact,
    /// or why the build has failed.
    pub open spec fn outcome(self) -> Result<Seq<char>, ErrorView> {
        match self.failure {
            Some(e) => Err(e),
            None => Ok(self.wasm_file),
        }
    }

    /// The folder in which the artifact is saved: the destination that the
    /// caller chose, or the current folder.
    pub open spec fn destination(self) -> Seq<char> {
        match self.config.destination_path {
            Some(path) => path,
            None => "."@,
        }
    }

    /// The reference of the image of the container.
    pub open spec fn image(self) -> Seq<char> {
        image_reference(self.image_tag)
    }

    /// Whether the build has come to the daemon and not yet to its end: the
    /// image is being pulled, or a container is being started, used or
    /// removed.
    pub open spec fn engages_daemon(self) -> bool {
        self.stage == Stage::PullingImage || self.stage == Stage::StartingContainer || self.stage
            == Stage::CopyingFiles || self.stage == Stage::Building || self.stage
            == Stage::WritingFiles || self.stage == Stage::RemovingContainer
    }

    /// The state of the build, in the large.
    pub open spec fn phase(self) -> Phase {
        match self.stage {
            Stage::CreatingDestination | Stage::ValidatingSource | Stage::ReadingManifest
            | Stage::ResolvingDependencies | Stage::CreatingTempDir => Phase::Init,
            Stage::PullingImage | Stage::StartingContainer => Phase::DependenciesResolved,
            Stage::CopyingFiles => Phase::SandboxReady,
            Stage::Building => if self.steps.len() > 0 {
                Phase::SourceTransferred
            } else {
                Phase::Built
            },
            Stage::WritingFiles => Phase::Built,
            Stage::HostBuilding => if self.host_steps.len() > 0 {
                Phase::SourceTransferred
            } else if self.failure is Some {
                Phase::Failed
            } else {
                Phase::ArtifactRetrieved
            },
            Stage::RemovingContainer => if self.failure is Some {
                Phase::Failed
            } else {
                Phase::ArtifactRetrieved
            },
            Stage::Finished => if self.failure is Some {
                Phase::Failed
            } else {
                Phase::Done
            },
        }
    }

    /// What the orchestrator asks in this state.
    pub open spec fn pending(self) -> ActionView {
        match self.stage {
            Stage::CreatingDestination => match self.config.destination_path {
                Some(path) => ActionView::CreateDestination { path },
                None => ActionView::ValidateSource { path: self.config.source_path },
            },
            Stage::ValidatingSource => ActionView::ValidateSource {
                path: self.config.source_path,
            },
            Stage::ReadingManifest => ActionView::ReadManifest { dir: self.source },
            Stage::ResolvingDependencies => ActionView::ResolveDependencies { root: self.source },
            Stage::PullingImage => ActionView::PullImage { image: self.image() },
            Stage::StartingContainer => ActionView::StartContainer(
                container_spec(self.container, self.image()),
            ),
            Stage::CopyingFiles => ActionView::CopyFiles {
                container: self.container,
                source_path: if self.dependencies.len() > 0 {
                    self.dependencies.first()
                } else {
                    self.source
                },
            },
            Stage::Building => if self.steps.len() > 0 {
                ActionView::Execute { container: self.container, step: self.steps.first() }
            } else {
                ActionView::CopyFilesFrom { container: self.container, path: output_folder() }
            },
            Stage::WritingFiles => ActionView::WriteFiles {
                destination: self.destination(),
                files: self.files,
            },
            Stage::RemovingContainer => ActionView::RemoveContainer(removal_spec(self.container)),
            Stage::CreatingTempDir => ActionView::CreateTempDir { name: self.container },
            Stage::HostBuilding => if self.host_steps.len() > 0 {
                ActionView::RunHostStep(self.host_steps.first())
            } else {
                ActionView::RemoveTempDir { name: self.container }
            },
            Stage::Finished => ActionView::Finish(self.outcome()),
        }
    }

    /// The build ends with the failure `e`. Nothing is left to remove.
    pub open spec fn finish(self, e: ErrorView) -> OrchestratorView {
        OrchestratorView { stage: Stage::Finished, failure: Some(e), ..self }
    }

    /// The build has failed with `e`; the container is removed next.
    pub open spec fn cleanup(self, e: ErrorView) -> OrchestratorView {
        OrchestratorView { stage: Stage::RemovingContainer, failure: Some(e), ..self }
    }

    /// The manifest was read: the artifact is named after the package, and
    /// the build goes on in a container or on this machine, as the caller
    /// chose. A tag that names no known image ends the build here.
    pub open spec fn named(self, package_name: Seq<char>, lock_file_exists: bool) -> OrchestratorView {
        let named = OrchestratorView {
            wasm_file: artifact_name(package_name),
            use_lock_file: self.config.locked && lock_file_exists,
            ..self
        };
        match self.config.docker_option {
            DockerOptionView::Dockerless => OrchestratorView {
                stage: Stage::CreatingTempDir,
                ..named
            },
            DockerOptionView::Docker(tag) => if is_known_image_tag(requested_tag(tag)) {
                OrchestratorView {
                    image_tag: requested_tag(tag),
                    stage: Stage::ResolvingDependencies,
                    ..named
                }
            } else {
                named.finish(ErrorView::UnkownDockerImageTag(requested_tag(tag)))
            },
        }
    }

    /// The state after the answer `event`.
    ///
    /// Before the daemon is spoken to, a failure ends the build at once: a
    /// destination that cannot be created, a source path that names no usable
    /// folder, a source folder without the manifest of a package, a tag that
    /// names no known image, dependencies that cannot be resolved. From then on every
    /// failure leads to the removal of the container first, whether or not
    /// the container came to be: an image that cannot be pulled, a container
    /// that does not start, a folder that cannot be copied, a command that
    /// fails, a result that cannot be fetched or holds no file, a file that
    /// cannot be written. The dependencies are copied before the source code,
    /// and the commands run in their order; the first that fails ends the
    /// run. Whether the container was removed does not change how the build
    /// ended; a container that a successful build has left behind is a
    /// warning. An answer to a question that was not asked changes nothing.
    pub open spec fn step(self, event: EventView) -> OrchestratorView {
        match (self.stage, event) {
            (Stage::CreatingDestination, EventView::DestinationCreated(ok)) => if ok {
                OrchestratorView { stage: Stage::ValidatingSource, ..self }
            } else {
                self.finish(ErrorView::InvalidDestinationPath)
            },
            (Stage::ValidatingSource, EventView::SourceValidated(Some(path))) => OrchestratorView {
                source: path,
                stage: Stage::ReadingManifest,
                ..self
            },
            (Stage::ValidatingSource, EventView::SourceValidated(None)) => self.finish(
                ErrorView::InvalidSourcePath,
            ),
            (Stage::ReadingManifest, EventView::ManifestRead { manifest, lock_file_exists }) => {
                match package_name_in(manifest) {
                    Ok(name) => self.named(name, lock_file_exists),
                    Err(e) => self.finish(e),
                }
            },
            (Stage::ResolvingDependencies, EventView::DependenciesResolved(Ok(found))) => {
                OrchestratorView { dependencies: found, stage: Stage::PullingImage, ..self }
            },
            (Stage::ResolvingDependencies, EventView::DependenciesResolved(Err(e))) => self.finish(
                e,
            ),
            (Stage::PullingImage, EventView::ImagePulled(statuses)) => if pull_succeeded(
                statuses,
            ) {
                OrchestratorView { stage: Stage::StartingContainer, ..self }
            } else {
                self.cleanup(ErrorView::DockerDaemonFailure)
            },
            (Stage::StartingContainer, EventView::ContainerStarted(ok)) => if ok {
                OrchestratorView { stage: Stage::CopyingFiles, ..self }
            } else {
                self.cleanup(ErrorView::DockerDaemonFailure)
            },
            (Stage::CopyingFiles, EventView::FilesCopied(ok)) => if !ok {
                self.cleanup(ErrorView::DockerDaemonFailure)
            } else if self.dependencies.len() > 0 {
                OrchestratorView { dependencies: self.dependencies.drop_first(), ..self }
            } else {
                OrchestratorView {
                    stage: Stage::Building,
                    steps: pipeline(self.source, self.use_lock_file, self.wasm_file),
                    ..self
                }
            },
            (Stage::Building, EventView::Executed(Ok(log))) if self.steps.len() > 0 => {
                OrchestratorView {
                    steps: self.steps.drop_first(),
                    build_log: if self.build_log is None {
                        Some(log)
                    } else {
                        self.build_log
                    },
                    ..self
                }
            },
            (Stage::Building, EventView::Executed(Err(e))) if self.steps.len() > 0 => self.cleanup(
                with_build_log(e, self.build_log),
            ),
            (Stage::Building, EventView::Downloaded(downloaded)) if self.steps.len() == 0 => {
                match fetched(downloaded, log_text(self.build_log)) {
                    Ok(files) => OrchestratorView { files, stage: Stage::WritingFiles, ..self },
                    Err(e) => self.cleanup(e),
                }
            },
            (Stage::WritingFiles, EventView::FilesWritten(written)) => match written {
                WriteOutcome::Written => OrchestratorView {
                    stage: Stage::RemovingContainer,
                    ..self
                },
                WriteOutcome::CannotCreate => self.cleanup(
                    ErrorView::BuildFailure(cannot_create_message()),
                ),
                WriteOutcome::CannotWrite => self.cleanup(
                    ErrorView::BuildFailure(cannot_write_message()),
                ),
            },
            (Stage::RemovingContainer, EventView::ContainerRemoved(removed)) => OrchestratorView {
                stage: Stage::Finished,
                removal_failed: !removed,
                ..self
            },
            (Stage::CreatingTempDir, EventView::TempDirCreated(ok)) => if ok {
                OrchestratorView {
                    stage: Stage::HostBuilding,
                    host_steps: host_pipeline(self.use_lock_file, self.wasm_file),
                    ..self
                }
            } else {
                self.finish(ErrorView::CreateTempDir)
            },
            (Stage::HostBuilding, EventView::HostStepFinished(outcome)) if self.host_steps.len()
                > 0 => match host_failure(self.host_steps.first(), outcome) {
                Some(e) => OrchestratorView {
                    host_steps: Seq::empty(),
                    failure: Some(e),
                    ..self
                },
                None => OrchestratorView { host_steps: self.host_steps.drop_first(), ..self },
            },
            (Stage::HostBuilding, EventView::TempDirRemoved(_)) if self.host_steps.len() == 0 => {
                OrchestratorView { stage: Stage::Finished, ..self }
            },
            _ => self,
        }
    }
}

impl View for Orchestrator {
    type V = OrchestratorView;

    closed spec fn view(&self) -> OrchestratorView {
        OrchestratorView {
            config: self.config@,
            stage: self.stage,
            source: self.source@,
            use_lock_file: self.use_lock_file,
            wasm_file: self.wasm_file@,
            image_tag: self.image_tag@,
            container: self.container@,
            dependencies: texts(self.dependencies@),
            steps: steps_view(self.steps@),
            host_steps: host_steps_view(self.host_steps@),
            build_log: opt_view(self.build_log),
            files: files_view(self.files@),
            failure: match self.failure {
                Some(e) => Some(e@),
                None => None,
            },
            removal_failed: self.removal_failed,
        }
    }
}

impl Config {
    /// Begins the build that this configuration describes. The name of the
    /// container, or of the temporary working folder, is chosen at random.
    pub fn run(self) -> (out: Orchestrator)
        ensures
            out@ == OrchestratorView::initial(self@, out@.container),
            is_container_name(out@.container),
    {
        let stage = if self.destination_path.is_some() {
            Stage::CreatingDestination
        } else {
            Stage::ValidatingSource
        };
        let name = match &self.docker_option {
            DockerOption::Docker(_) => random_container_name(),
            DockerOption::Dockerless => random_temp_dir_name(),
        };
        let out = Orchestrator {
            config: self,
            stage,
            source: String::new(),
            use_lock_file: false,
            wasm_file: String::new(),
            image_tag: String::new(),
            container: name,
            dependencies: Vec::new(),
            steps: Vec::new(),
            host_steps: Vec::new(),
            build_log: None,
            files: Vec::new(),
            failure: None,
            removal_failed: false,
        };
        assert(out@.dependencies =~= Seq::empty());
        assert(out@.steps =~= Seq::empty());
        assert(out@.host_steps =~= Seq::empty());
        assert(out@.files =~= Seq::empty());
        out
    }
}

/// Begins the build of the package in `source_path` in a container of the
/// default image, without regard to a lock file. The artifact is saved in
/// `destination_path`, or in the current folder where that is `None`.
pub fn build_target(source_path: String, destination_path: Option<String>) -> (out: Orchestrator)
    ensures
        out@ == OrchestratorView::initial(
            ConfigView {
                source_path: source_path@,
                destination_path: opt_view(destination_path),
                locked: false,
                docker_option: DockerOptionView::Docker(None),
            },
            out@.container,
        ),
        is_container_name(out@.container),
{
    let config = Config {
        source_path,
        destination_path,
        build_options: BuildOptions { locked: false },
        docker_option: DockerOption::Docker(DockerConfig { tag: None }),
    };
    config.run()
}

impl Orchestrator {
    /// Whether the build has ended.
    pub fn is_finished(&self) -> (out: bool)
        ensures
            out == (self@.stage == Stage::Finished),
    {
        self.stage == Stage::Finished
    }

    /// What the user is to be warned of, if anything: that the build has
    /// succeeded, and that its container could not be removed.
    pub fn warning(&self) -> (out: Option<Error>)
        ensures
            (match out {
                Some(e) => Some(e@),
                None => None,
            }) == self@.warning(),
    {
        if self.removal_failed && self.failure.is_none() {
            Some(Error::ArtifactRemovalFailure)
        } else {
            None
        }
    }

    /// The state of the build, in the large.
    pub fn phase(&self) -> (out: Phase)
        ensures
            out == self@.phase(),
    {
        match self.stage {
            Stage::CreatingDestination => Phase::Init,
            Stage::ValidatingSource => Phase::Init,
            Stage::ReadingManifest => Phase::Init,
            Stage::ResolvingDependencies => Phase::Init,
            Stage::CreatingTempDir => Phase::Init,
            Stage::PullingImage => Phase::DependenciesResolved,
            Stage::StartingContainer => Phase::DependenciesResolved,
            Stage::CopyingFiles => Phase::SandboxReady,
            Stage::Building => if self.steps.len() > 0 {
                Phase::SourceTransferred
            } else {
                Phase::Built
            },
            Stage::WritingFiles => Phase::Built,
            Stage::HostBuilding => if self.host_steps.len() > 0 {
                Phase::SourceTransferred
            } else if self.failure.is_some() {
                Phase::Failed
            } else {
                Phase::ArtifactRetrieved
            },
            Stage::RemovingContainer => if self.failure.is_some() {
                Phase::Failed
            } else {
                Phase::ArtifactRetrieved
            },
            Stage::Finished => if self.failure.is_some() {
                Phase::Failed
            } else {
                Phase::Done
            },
        }
    }

    fn image(&self) -> (out: String)
        ensures
            out@ == self@.image(),
    {
        image_of(self.image_tag.as_str())
    }

    fn log(&self) -> (out: String)
        ensures
            out@ == log_text(self@.build_log),
    {
        match &self.build_log {
            Some(log) => log.clone(),
            None => String::new(),
        }
    }

    /// What the orchestrator asks of its driver now.
    pub fn next_action(&self) -> (action: Action)
        ensures
            action@ == self@.pending(),
    {
        match self.stage {
            Stage::CreatingDestination => match &self.config.destination_path {
                Some(path) => Action::CreateDestination { path: path.clone() },
                None => Action::ValidateSource { path: self.config.source_path.clone() },
            },
            Stage::ValidatingSource => Action::ValidateSource {
                path: self.config.source_path.clone(),
            },
            Stage::ReadingManifest => Action::ReadManifest { dir: self.source.clone() },
            Stage::ResolvingDependencies => Action::ResolveDependencies {
                root: self.source.clone(),
            },
            Stage::PullingImage => Action::PullImage { image: self.image() },
            Stage::StartingContainer => Action::StartContainer(
                start_container(self.container.as_str(), self.image()),
            ),
            Stage::CopyingFiles => {
                let source_path = if self.dependencies.len() > 0 {
                    self.dependencies[0].clone()
                } else {
                    self.source.clone()
                };
                Action::CopyFiles { container: self.container.clone(), source_path }
            },
            Stage::Building => if self.steps.len() > 0 {
                Action::Execute { container: self.container.clone(), step: self.steps[0].clone() }
            } else {
                Action::CopyFilesFrom {
                    container: self.container.clone(),
                    path: "/result".to_owned(),
                }
            },
            Stage::WritingFiles => {
                let destination = match &self.config.destination_path {
                    Some(path) => path.clone(),
                    None => ".".to_owned(),
                };
                Action::WriteFiles { destination, files: clone_files(&self.files) }
            },
            Stage::RemovingContainer => Action::RemoveContainer(
                remove_container(self.container.as_str()),
            ),
            Stage::CreatingTempDir => Action::CreateTempDir { name: self.container.clone() },
            Stage::HostBuilding => if self.host_steps.len() > 0 {
                Action::RunHostStep(self.host_steps[0].clone())
            } else {
                Action::RemoveTempDir { name: self.container.clone() }
            },
            Stage::Finished => match &self.failure {
                Some(e) => Action::Finish(Err(e.clone())),
                None => Action::Finish(Ok(self.wasm_file.clone())),
            },
        }
    }

    fn finish(&mut self, e: Error)
        ensures
            final(self)@ == old(self)@.finish(e@),
    {
        self.stage = Stage::Finished;
        self.failure = Some(e);
    }

    fn cleanup(&mut self, e: Error)
        ensures
            final(self)@ == old(self)@.cleanup(e@),
    {
        self.stage = Stage::RemovingContainer;
        self.failure = Some(e);
    }

    fn named(&mut self, package_name: String, lock_file_exists: bool)
        ensures
            final(self)@ == old(self)@.named(package_name@, lock_file_exists),
    {
        self.wasm_file = wasm_file_name(package_name.as_str());
        self.use_lock_file = self.config.build_options.locked && lock_file_exists;
        let tag = match &self.config.docker_option {
            DockerOption::Dockerless => None,
            DockerOption::Docker(docker_config) => Some(docker_image_tag(docker_config)),
        };
        match tag {
            None => {
                self.stage = Stage::CreatingTempDir;
            },
            Some(Ok(tag)) => {
                self.image_tag = tag;
                self.stage = Stage::ResolvingDependencies;
            },
            Some(Err(e)) => {
                self.finish(e);
            },
        }
    }

    fn with_build_log(&self, e: Error) -> (out: Error)
        ensures
            out@ == with_build_log(e@, self@.build_log),
    {
        match e {
            Error::BuildFailureWithLogs(log) => {
                let mut text = self.log();
                text.append(log.as_str());
                Error::BuildFailureWithLogs(text)
            },
            other => other,
        }
    }

    /// Takes the answer `event` to what was asked last, and returns what is
    /// asked next (see [`OrchestratorView::step`]).
    pub fn step(&mut self, event: Event) -> (action: Action)
        ensures
            final(self)@ == old(self)@.step(event@),
            action@ == final(self)@.pending(),
    {
        match self.stage {
            Stage::CreatingDestination => match event {
                Event::DestinationCreated(ok) => {
                    if ok {
                        self.stage = Stage::ValidatingSource;
                    } else {
                        self.finish(Error::InvalidDestinationPath);
                    }
                },
                _ => {},
            },
            Stage::ValidatingSource => match event {
                Event::SourceValidated(Some(path)) => {
                    self.source = path;
                    self.stage = Stage::ReadingManifest;
                },
                Event::SourceValidated(None) => {
                    self.finish(Error::InvalidSourcePath);
                },
                _ => {},
            },
            Stage::ReadingManifest => match event {
                Event::ManifestRead { manifest, lock_file_exists } => {
                    match package_name(&manifest) {
                        Ok(name) => {
                            self.named(name, lock_file_exists);
                        },
                        Err(e) => {
                            self.finish(e);
                        },
                    }
                },
                _ => {},
            },
            Stage::ResolvingDependencies => match event {
                Event::DependenciesResolved(Ok(found)) => {
                    self.dependencies = found;
                    self.stage = Stage::PullingImage;
                },
                Event::DependenciesResolved(Err(e)) => {
                    self.finish(e);
                },
                _ => {},
            },
            Stage::PullingImage => match event {
                Event::ImagePulled(statuses) => {
                    match pull_image(self.image_tag.as_str(), &statuses) {
                        Ok(_) => {
                            self.stage = Stage::StartingContainer;
                        },
                        Err(e) => {
                            self.cleanup(e);
                        },
                    }
                },
                _ => {},
            },
            Stage::StartingContainer => match event {
                Event::ContainerStarted(ok) => {
                    if ok {
                        self.stage = Stage::CopyingFiles;
                    } else {
                        self.cleanup(Error::DockerDaemonFailure);
                    }
                },
                _ => {},
            },
            Stage::CopyingFiles => match event {
                Event::FilesCopied(ok) => {
                    if !ok {
                        self.cleanup(Error::DockerDaemonFailure);
                    } else if self.dependencies.len() > 0 {
                        self.dependencies.remove(0);
                        assert(self@.dependencies =~= old(self)@.dependencies.drop_first());
                    } else {
                        let plan = build_contracts(
                            self.source.as_str(),
                            self.use_lock_file,
                            true,
                            self.wasm_file.as_str(),
                        );
                        self.steps = plan.steps;
                        self.stage = Stage::Building;
                    }
                },
                _ => {},
            },
            Stage::Building => match event {
                Event::Executed(result) => {
                    if self.steps.len() > 0 {
                        match result {
                            Ok(log) => {
                                self.steps.remove(0);
                                assert(self@.steps =~= old(self)@.steps.drop_first());
                                if self.build_log.is_none() {
                                    self.build_log = Some(log);
                                }
                            },
                            Err(e) => {
                                let e = self.with_build_log(e);
                                self.cleanup(e);
                            },
                        }
                    }
                },
                Event::Downloaded(downloaded) => {
                    if self.steps.len() == 0 {
                        match copy_files_from(downloaded, self.log()) {
                            Ok(files) => {
                                self.files = files;
                                self.stage = Stage::WritingFiles;
                            },
                            Err(e) => {
                                self.cleanup(e);
                            },
                        }
                    }
                },
                _ => {},
            },
            Stage::WritingFiles => match event {
                Event::FilesWritten(written) => {
                    match written {
                        WriteOutcome::Written => {
                            self.stage = Stage::RemovingContainer;
                        },
                        WriteOutcome::CannotCreate => {
                            self.cleanup(
                                Error::BuildFailure(
                                    "Fail to access to destination path.".to_owned(),
                                ),
                            );
                        },
                        WriteOutcome::CannotWrite => {
                            self.cleanup(
                                Error::BuildFailure(
                                    "Fail to write the compiled contract to destination path.".to_owned(),
                                ),
                            );
                        },
                    }
                },
                _ => {},
            },
            Stage::RemovingContainer => match event {
                Event::ContainerRemoved(removed) => {
                    self.stage = Stage::Finished;
                    self.removal_failed = !removed;
                },
                _ => {},
            },
            Stage::CreatingTempDir => match event {
                Event::TempDirCreated(ok) => {
                    if ok {
                        self.host_steps = build_contract(
                            self.use_lock_file,
                            true,
                            self.wasm_file.as_str(),
                        );
                        self.stage = Stage::HostBuilding;
                    } else {
                        self.finish(Error::CreateTempDir);
                    }
                },
                _ => {},
            },
            Stage::HostBuilding => match event {
                Event::HostStepFinished(outcome) => {
                    if self.host_steps.len() > 0 {
                        match failure_of(&self.host_steps[0], outcome) {
                            Some(e) => {
                                self.host_steps = Vec::new();
                                self.failure = Some(e);
                                assert(self@.host_steps =~= Seq::empty());
                            },
                            None => {
                                self.host_steps.remove(0);
                                assert(self@.host_steps =~= old(self)@.host_steps.drop_first());
                            },
                        }
                    }
                },
                Event::TempDirRemoved(_) => {
                    if self.host_steps.len() == 0 {
                        self.stage = Stage::Finished;
                    }
                },
                _ => {},
            },
            Stage::Finished => {},
        }
        self.next_action()
    }
}

/// Removing the container never changes how the build ended. Whether the
/// removal succeeded or not, the build ends, and with the outcome that was
/// decided before. A removal that failed leaves a warning where the build has
/// succeeded, and nothing else.
pub proof fn lemma_removal_never_changes_the_outcome(s: OrchestratorView, removed: bool)
    requires
        s.stage == Stage::RemovingContainer,
    ensures
        s.step(EventView::ContainerRemoved(removed)).stage == Stage::Finished,
        s.step(EventView::ContainerRemoved(removed)).outcome() == s.outcome(),
        s.step(EventView::ContainerRemoved(removed)).pending() == ActionView::Finish(s.outcome()),
        s.step(EventView::ContainerRemoved(removed)).warning() is Some <==> !removed
            && s.outcome() is Ok,
        s.step(EventView::ContainerRemoved(removed)) == (OrchestratorView {
            removal_failed: !removed,
            ..s.step(EventView::ContainerRemoved(!removed))
        }),
{
}

/// Removing the temporary working folder never changes how a build on this
/// machine ended.
pub proof fn lemma_scratch_removal_never_changes_the_outcome(s: OrchestratorView, removed: bool)
    requires
        s.stage == Stage::HostBuilding,
        s.host_steps.len() == 0,
    ensures
        s.step(EventView::TempDirRemoved(removed)).stage == Stage::Finished,
        s.step(EventView::TempDirRemoved(removed)).outcome() == s.outcome(),
        s.step(EventView::TempDirRemoved(removed)).pending() == ActionView::Finish(s.outcome()),
        s.step(EventView::TempDirRemoved(removed)) == s.step(EventView::TempDirRemoved(!removed)),
{
}

/// A build that has ended stays as it is, whatever the driver answers. So a
/// removal that is answered again, or the removal of a container that never
/// was, changes nothing.
pub proof fn lemma_finished_is_final(s: OrchestratorView, event: EventView)
    requires
        s.stage == Stage::Finished,
    ensures
        s.step(event) == s,
{
}

/// An answer about the removal of a container changes nothing unless the
/// removal was asked for.
pub proof fn lemma_unasked_removal_changes_nothing(s: OrchestratorView, removed: bool)
    requires
        s.stage != Stage::RemovingContainer,
    ensures
        s.step(EventView::ContainerRemoved(removed)) == s,
{
}

/// Once the build has come to the daemon, it does not end before the removal
/// of the container was asked for and answered: every answer leads to a state
/// in which the build still engages the daemon, but for the answer to the
/// removal, which ends the build. And a failure on the way leads to the
/// removal at once.
pub proof fn lemma_container_is_removed_before_the_end(s: OrchestratorView, event: EventView)
    requires
        s.engages_daemon(),
    ensures
        s.step(event).engages_daemon() || {
            &&& s.stage == Stage::RemovingContainer
            &&& event is ContainerRemoved
            &&& s.step(event).stage == Stage::Finished
        },
        s.step(event).failure is Some && s.failure is None ==> s.step(event).stage
            == Stage::RemovingContainer,
        s.stage == Stage::RemovingContainer ==> s.step(event).stage == Stage::RemovingContainer
            || s.step(event).stage == Stage::Finished,
{
}

/// The daemon is first spoken to when the dependencies are resolved, and not
/// before. A build that fails before that ends at once: no container is
/// started for it, and none is removed.
pub proof fn lemma_no_container_before_the_pull(s: OrchestratorView, event: EventView)
    requires
        !s.engages_daemon(),
    ensures
        s.step(event).engages_daemon() ==> s.stage == Stage::ResolvingDependencies && s.step(
            event,
        ).stage == Stage::PullingImage,
        s.step(event).failure is Some && s.failure is None && s.stage != Stage::HostBuilding
            ==> s.step(event).stage == Stage::Finished,
{
}

/// Once the temporary working folder was created, a build on this machine
/// does not end before the removal of the folder was asked for and answered;
/// and a step that fails is the last step that runs.
pub proof fn lemma_scratch_is_removed_before_the_end(s: OrchestratorView, event: EventView)
    requires
        s.stage == Stage::HostBuilding,
    ensures
        s.step(event).stage == Stage::HostBuilding || {
            &&& s.host_steps.len() == 0
            &&& event is TempDirRemoved
            &&& s.step(event).stage == Stage::Finished
        },
        s.step(event).failure is Some && s.failure is None ==> s.step(event).pending() == (
        ActionView::RemoveTempDir { name: s.container }),
{
}

/// A package without a manifest is not built: where the source folder holds
/// no manifest that can be parsed, or one that describes no package, the
/// build ends at once with a manifest failure.
pub proof fn lemma_missing_manifest_fails_the_build(
    s: OrchestratorView,
    manifest: Option<ManifestView>,
    lock_file_exists: bool,
)
    requires
        s.stage == Stage::ReadingManifest,
        manifest matches Some(m) ==> m.package_name is None,
    ensures
        s.step(EventView::ManifestRead { manifest, lock_file_exists }).pending()
            == ActionView::Finish(Err(ErrorView::ManifestFailure)),
        s.step(EventView::ManifestRead { manifest, lock_file_exists }).stage == Stage::Finished,
{
}

/// A result without any file fails the build. Where every command has run
/// and the archive that was fetched holds no file, the build has failed with
/// the log of the compilation, and the container is removed next.
pub proof fn lemma_empty_extraction_fails_the_build(s: OrchestratorView, archive: Seq<u8>)
    requires
        s.stage == Stage::Building,
        s.steps.len() == 0,
        files_of(archive) matches Ok(files) && files.len() == 0,
    ensures
        s.step(EventView::Downloaded(Ok(archive))).failure == Some(
            ErrorView::BuildFailureWithLogs(log_text(s.build_log)),
        ),
        s.step(EventView::Downloaded(Ok(archive))).stage == Stage::RemovingContainer,
        s.step(EventView::Downloaded(Ok(archive))).outcome() is Err,
{
}

/// The first command that fails ends the run, and a timeout stays a timeout.
/// Where a command has run out of time the build fails with a timeout; where
/// it has failed with a log the build fails with the log of the build so far
/// in front of that log. The two differ, and in both cases no further command
/// is asked for: the container is removed next.
pub proof fn lemma_a_timeout_stays_a_timeout(s: OrchestratorView, log: Seq<char>)
    requires
        s.stage == Stage::Building,
        s.steps.len() > 0,
    ensures
        s.step(EventView::Executed(Err(ErrorView::BuildTimeout))).outcome() == Err::<
            Seq<char>,
            ErrorView,
        >(ErrorView::BuildTimeout),
        s.step(EventView::Executed(Err(ErrorView::BuildFailureWithLogs(log)))).outcome() == Err::<
            Seq<char>,
            ErrorView,
        >(ErrorView::BuildFailureWithLogs(log_text(s.build_log) + log)),
        s.step(EventView::Executed(Err(ErrorView::BuildTimeout))).pending()
            == ActionView::RemoveContainer(removal_spec(s.container)),
        s.step(EventView::Executed(Err(ErrorView::BuildFailureWithLogs(log)))).pending()
            == ActionView::RemoveContainer(removal_spec(s.container)),
{
}

/// The state after `count` folders were copied into the container without a
/// failure.
pub open spec fn after_copies(s: OrchestratorView, count: nat) -> OrchestratorView
    decreases count,
{
    if count == 0 {
        s
    } else {
        after_copies(s, (count - 1) as nat).step(EventView::FilesCopied(true))
    }
}

/// The dependencies are copied in their order, then the source code, then the
/// commands run. With `n` dependencies to copy, the folder asked for after
/// `count` copies is dependency number `count`, for `count` below `n`, and the
/// source folder for `count` equal to `n`; after one more copy the first
/// command of the build is asked for.
pub proof fn lemma_dependencies_are_copied_before_the_source(s: OrchestratorView, count: nat)
    requires
        s.stage == Stage::CopyingFiles,
        count <= s.dependencies.len() + 1,
    ensures
        count < s.dependencies.len() ==> after_copies(s, count).pending() == (ActionView::CopyFiles {
            container: s.container,
            source_path: s.dependencies[count as int],
        }),
        count == s.dependencies.len() ==> after_copies(s, count).pending() == (
        ActionView::CopyFiles { container: s.container, source_path: s.source }),
        count == s.dependencies.len() + 1 ==> after_copies(s, count).pending() == (
        ActionView::Execute {
            container: s.container,
            step: pipeline(s.source, s.use_lock_file, s.wasm_file)[0],
        }),
        count <= s.dependencies.len() ==> after_copies(s, count) == (OrchestratorView {
            dependencies: s.dependencies.skip(count as int),
            ..s
        }),
    decreases count,
{
    if count == 0 {
        assert(s.dependencies.skip(0) =~= s.dependencies);
    } else {
        let before = (count - 1) as nat;
        lemma_dependencies_are_copied_before_the_source(s, before);
        let rest = s.dependencies.skip(before as int);
        assert(after_copies(s, before).dependencies == rest);
        if count <= s.dependencies.len() {
            assert(rest.drop_first() =~= s.dependencies.skip(count as int));
        }
    }
}

/// Whether `event` answers what `s` asks.
pub open spec fn answers(s: OrchestratorView, event: EventView) -> bool {
    match s.stage {
        Stage::CreatingDestination => event is DestinationCreated,
        Stage::ValidatingSource => event is SourceValidated,
        Stage::ReadingManifest => event is ManifestRead,
        Stage::ResolvingDependencies => event is DependenciesResolved,
        Stage::PullingImage => event is ImagePulled,
        Stage::StartingContainer => event is ContainerStarted,
        Stage::CopyingFiles => event is FilesCopied,
        Stage::Building => if s.steps.len() > 0 {
            event is Executed
        } else {
            event is Downloaded
        },
        Stage::WritingFiles => event is FilesWritten,
        Stage::RemovingContainer => event is ContainerRemoved,
        Stage::CreatingTempDir => event is TempDirCreated,
        Stage::HostBuilding => if s.host_steps.len() > 0 {
            event is HostStepFinished
        } else {
            event is TempDirRemoved
        },
        Stage::Finished => false,
    }
}

/// How far a build is from its end: how many kinds of question may still come,
/// and how many folders, commands and steps are still to go through.
pub open spec fn distance(s: OrchestratorView) -> (nat, nat) {
    (
        match s.stage {
            Stage::CreatingDestination => 10,
            Stage::ValidatingSource => 9,
            Stage::ReadingManifest => 8,
            Stage::ResolvingDependencies => 7,
            Stage::PullingImage => 6,
            Stage::StartingContainer => 5,
            Stage::CopyingFiles => 4,
            Stage::Building => 3,
            Stage::WritingFiles => 2,
            Stage::RemovingContainer => 1,
            Stage::CreatingTempDir => 2,
            Stage::HostBuilding => 1,
            Stage::Finished => 0,
        },
        s.dependencies.len() + s.steps.len() + s.host_steps.len() + (if s.stage
            == Stage::Building || s.stage == Stage::HostBuilding {
            1nat
        } else {
            0nat
        }),
    )
}

/// Every answer to what was asked brings the build closer to its end: either
/// fewer kinds of question may still come, or as many, with less to go
/// through.
pub proof fn lemma_every_answer_brings_the_end_closer(s: OrchestratorView, event: EventView)
    requires
        answers(s, event),
    ensures
        distance(s.step(event)).0 < distance(s).0 || (distance(s.step(event)).0 == distance(s).0
            && distance(s.step(event)).1 < distance(s).1),
{
}

/// The state of a build after `count` answers of `world`, which stands for
/// the machine and the daemon: it gives the answer to every state of a build.
pub open spec fn after(
    s: OrchestratorView,
    world: spec_fn(OrchestratorView) -> EventView,
    count: nat,
) -> OrchestratorView
    decreases count,
{
    if count == 0 {
        s
    } else {
        after(s.step(world(s)), world, (count - 1) as nat)
    }
}

/// Every build ends, and none leaves its container behind unasked. Where the
/// driver answers what is asked, then after some number of answers, which is
/// returned, the build has ended; and if the build had come to the daemon, the
/// removal of the container was asked for and answered on the way.
pub proof fn lemma_every_build_ends(
    s: OrchestratorView,
    world: spec_fn(OrchestratorView) -> EventView,
) -> (count: nat)
    requires
        forall|t: OrchestratorView| t.stage != Stage::Finished ==> answers(t, #[trigger] world(t)),
    ensures
        after(s, world, count).stage == Stage::Finished,
        s.engages_daemon() ==> exists|before: nat|
            before < count && (#[trigger] after(s, world, before)).stage
                == Stage::RemovingContainer && after(s, world, before + 1).stage
                == Stage::Finished,
    decreases distance(s).0, distance(s).1,
{
    if s.stage == Stage::Finished {
        0
    } else {
        let event = world(s);
        let next = s.step(event);
        lemma_every_answer_brings_the_end_closer(s, event);
        let rest = lemma_every_build_ends(next, world);
        if s.engages_daemon() {
            lemma_container_is_removed_before_the_end(s, event);
            if next.engages_daemon() {
                let before = choose|before: nat|
                    before < rest && (#[trigger] after(next, world, before)).stage
                        == Stage::RemovingContainer && after(next, world, before + 1).stage
                        == Stage::Finished;
                assert(after(s, world, before + 1) == after(next, world, before));
                assert(after(s, world, before + 1 + 1) == after(next, world, before + 1));
            } else {
                assert(after(s, world, 0) == s);
                assert(after(s, world, 1) == after(next, world, 0));
            }
        }
        rest + 1
    }
}

/// An artifact that was built: its file name, and the folder in which it was
/// saved.
#[derive(Clone, Debug, PartialEq, Eq)]
pub struct Artifact {
    pub name: String,
    pub path: String,
}

/// A build that failed: the kind of the failure in short, and a longer hint
/// for the user.
#[derive(Clone, Debug, PartialEq, Eq)]
pub struct Failure {
    pub kind: String,
    pub detail: String,
}

/// How a batch of builds ended.
#[derive(Debug, PartialEq, Eq)]
pub struct Report {
    /// The artifacts of the builds that succeeded, in the order of the batch.
    pub succeeded: Vec<Artifact>,
    /// The failures of the builds that failed, in the order of the batch.
    pub failed: Vec<Failure>,
}

/// The folder in which artifacts are saved: `path`, or the current folder
/// where there is none.
pub open spec fn destination_of(path: Option<Seq<char>>) -> Seq<char> {
    match path {
        Some(path) => path,
        None => "."@,
    }
}

/// The artifacts of the builds of `results` that succeeded, each as its file
/// name and `destination`, in the order of `results`.
pub open spec fn artifacts_of(results: Seq<Result<Seq<char>, ErrorView>>, destination: Seq<char>) -> Seq<
    (Seq<char>, Seq<char>),
>
    decreases results.len(),
{
    if results.len() == 0 {
        Seq::empty()
    } else {
        let rest = artifacts_of(results.drop_last(), destination);
        match results.last() {
            Ok(name) => rest.push((name, destination)),
            Err(_) => rest,
        }
    }
}

/// The failures of the builds of `results` that failed, each as its short
/// message and its hint, in the order of `results`.
pub open spec fn failures_of(results: Seq<Result<Seq<char>, ErrorView>>) -> Seq<
    (Seq<char>, Seq<char>),
>
    decreases results.len(),
{
    if results.len() == 0 {
        Seq::empty()
    } else {
        let rest = failures_of(results.drop_last());
        match results.last() {
            Ok(_) => rest,
            Err(e) => rest.push((crate::error::message_text(e), crate::error::detail_text(e))),
        }
    }
}

/// What a list of outcomes denotes.
pub open spec fn results_view(results: Seq<Result<String, Error>>) -> Seq<
    Result<Seq<char>, ErrorView>,
> {
    results.map_values(|r: Result<String, Error>| text_result_view(r))
}

impl Report {
    /// The artifacts of the report, each as its file name and its folder.
    pub open spec fn artifacts(self) -> Seq<(Seq<char>, Seq<char>)> {
        self.succeeded@.map_values(|a: Artifact| (a.name@, a.path@))
    }

    /// The failures of the report, each as its kind and its hint.
    pub open spec fn failures(self) -> Seq<(Seq<char>, Seq<char>)> {
        self.failed@.map_values(|f: Failure| (f.kind@, f.detail@))
    }
}

/// Sorts the outcomes of a batch of builds into artifacts and failures. Every
/// build is in exactly one of the two lists, and each list keeps the order of
/// the batch. `destination_path` is where the artifacts were saved; `None`
/// stands for the current folder.
pub fn report(results: &Vec<Result<String, Error>>, destination_path: &Option<String>) -> (out:
    Report)
    ensures
        out.artifacts() == artifacts_of(
            results_view(results@),
            destination_of(opt_view(*destination_path)),
        ),
        out.failures() == failures_of(results_view(results@)),
        out.succeeded@.len() + out.failed@.len() == results@.len(),
{
    let ghost destination = destination_of(opt_view(*destination_path));
    let ghost all = results_view(results@);
    let mut out = Report { succeeded: Vec::new(), failed: Vec::new() };
    let mut i: usize = 0;
    assert(out.artifacts() =~= artifacts_of(all.take(0), destination));
    assert(out.failures() =~= failures_of(all.take(0)));
    while i < results.len()
        invariant
            i <= results.len(),
            all == results_view(results@),
            destination == destination_of(opt_view(*destination_path)),
            out.artifacts() == artifacts_of(all.take(i as int), destination),
            out.failures() == failures_of(all.take(i as int)),
            out.succeeded@.len() + out.failed@.len() == i,
        decreases results.len() - i,
    {
        proof {
            assert(all.take(i + 1).drop_last() =~= all.take(i as int));
            assert(all.take(i + 1).last() == text_result_view(results@[i as int]));
        }
        let ghost artifacts = out.artifacts();
        let ghost failures = out.failures();
        match &results[i] {
            Ok(name) => {
                let path = match destination_path {
                    Some(path) => path.clone(),
                    None => ".".to_owned(),
                };
                let artifact = Artifact { name: name.clone(), path };
                out.succeeded.push(artifact);
                assert(out.artifacts() =~= artifacts.push((name@, destination)));
                assert(out.failures() =~= failures);
            },
            Err(e) => {
                let failure = Failure { kind: e.message(), detail: e.detail() };
                out.failed.push(failure);
                assert(out.failures() =~= failures.push(
                    (crate::error::message_text(e@), crate::error::detail_text(e@)),
                ));
                assert(out.artifacts() =~= artifacts);
            },
        }
        i += 1;
    }
    assert(all.take(results.len() as int) =~= all);
    out
}

/// A failure among the builds of a batch takes nothing from the others: the
/// artifacts of a batch are those of its first builds followed by those of
/// the rest, and so are its failures.
pub proof fn lemma_report_is_built_build_by_build(
    first: Seq<Result<Seq<char>, ErrorView>>,
    rest: Seq<Result<Seq<char>, ErrorView>>,
    destination: Seq<char>,
)
    ensures
        artifacts_of(first + rest, destination) == artifacts_of(first, destination) + artifacts_of(
            rest,
            destination,
        ),
        failures_of(first + rest) == failures_of(first) + failures_of(rest),
    decreases rest.len(),
{
    if rest.len() == 0 {
        assert(first + rest =~= first);
        assert(artifacts_of(first, destination) + Seq::empty() =~= artifacts_of(
            first,
            destination,
        ));
        assert(failures_of(first) + Seq::empty() =~= failures_of(first));
    } else {
        lemma_report_is_built_build_by_build(first, rest.drop_last(), destination);
        assert((first + rest).drop_last() =~= first + rest.drop_last());
        assert((first + rest).last() == rest.last());
        let a = artifacts_of(first, destination);
        let b = artifacts_of(rest.drop_last(), destination);
        let c = failures_of(first);
        let d = failures_of(rest.drop_last());
        match rest.last() {
            Ok(name) => {
                assert((a + b).push((name, destination)) =~= a + b.push((name, destination)));
            },
            Err(e) => {
                let f = (crate::error::message_text(e), crate::error::detail_text(e));
                assert((c + d).push(f) =~= c + d.push(f));
            },
        }
    }
}

/// The builds of a batch: one for each source path, in their order, each with
/// a name chosen at random for its container, all with the same destination
/// and the same options. There is no batch without a source path.
pub fn plan_builds(
    source_paths: &Vec<String>,
    destination_path: &Option<String>,
    build_options: BuildOptions,
    docker_option: &DockerOption,
) -> (out: Option<Vec<Orchestrator>>)
    ensures
        out is Some <==> source_paths@.len() > 0,
        out matches Some(builds) ==> {
            &&& builds@.len() == source_paths@.len()
            &&& forall|i: int|
                0 <= i < builds@.len() ==> {
                    &&& is_container_name((#[trigger] builds@[i])@.container)
                    &&& builds@[i]@ == OrchestratorView::initial(
                        ConfigView {
                            source_path: source_paths@[i]@,
                            destination_path: opt_view(*destination_path),
                            locked: build_options.locked,
                            docker_option: docker_option@,
                        },
                        builds@[i]@.container,
                    )
                }
        },
{
    if source_paths.len() == 0 {
        return None;
    }
    let mut builds: Vec<Orchestrator> = Vec::new();
    let mut i: usize = 0;
    while i < source_paths.len()
        invariant
            i <= source_paths.len(),
            builds@.len() == i,
            forall|k: int|
                0 <= k < builds@.len() ==> {
                    &&& is_container_name((#[trigger] builds@[k])@.container)
                    &&& builds@[k]@ == OrchestratorView::initial(
                        ConfigView {
                            source_path: source_paths@[k]@,
                            destination_path: opt_view(*destination_path),
                            locked: build_options.locked,
                            docker_option: docker_option@,
                        },
                        builds@[k]@.container,
                    )
                },
        decreases source_paths.len() - i,
    {
        let config = Config {
            source_path: source_paths[i].clone(),
            destination_path: crate::config::clone_opt(destination_path),
            build_options,
            docker_option: docker_option.clone(),
        };
        builds.push(config.run());
        i += 1;
    }
    Some(builds)
}

} // verus!
