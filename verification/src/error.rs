//! The ways in which a build can fail, with the short message and the longer
//! hint that are shown for each.

use vstd::prelude::*;

verus! {

/// Describes how a build ended when it did not produce an artifact.
#[derive(Debug, PartialEq, Eq)]
pub enum Error {
    /// The build failed; the text says why.
    BuildFailure(String),
    /// The build failed; the text is the log of the compilation.
    BuildFailureWithLogs(String),
    /// A bounded step of the build did not finish within its time limit.
    BuildTimeout,
    /// The Docker daemon did not respond, or reported an error.
    DockerDaemonFailure,
    /// The container used for the build could not be removed.
    ArtifactRemovalFailure,
    /// The manifest of a package is missing or cannot be read.
    ManifestFailure,
    /// The path to the source code is not a usable directory.
    InvalidSourcePath,
    /// The path to the destination is not a usable directory.
    InvalidDestinationPath,
    /// A dependency names a local path that is not a usable directory.
    InvalidDependencyPath,
    /// The temporary working directory could not be created.
    CreateTempDir,
    /// The tag names no known Docker image.
    UnkownDockerImageTag(String),
}

/// What an [`Error`] denotes: its kind, and its text as a sequence of characters.
pub enum ErrorView {
    BuildFailure(Seq<char>),
    BuildFailureWithLogs(Seq<char>),
    BuildTimeout,
    DockerDaemonFailure,
    ArtifactRemovalFailure,
    ManifestFailure,
    InvalidSourcePath,
    InvalidDestinationPath,
    InvalidDependencyPath,
    CreateTempDir,
    UnkownDockerImageTag(Seq<char>),
}

impl View for Error {
    type V = ErrorView;

    open spec fn view(&self) -> ErrorView {
        match *self {
            Error::BuildFailure(m) => ErrorView::BuildFailure(m@),
            Error::BuildFailureWithLogs(m) => ErrorView::BuildFailureWithLogs(m@),
            Error::BuildTimeout => ErrorView::BuildTimeout,
            Error::DockerDaemonFailure => ErrorView::DockerDaemonFailure,
            Error::ArtifactRemovalFailure => ErrorView::ArtifactRemovalFailure,
            Error::ManifestFailure => ErrorView::ManifestFailure,
            Error::InvalidSourcePath => ErrorView::InvalidSourcePath,
            Error::InvalidDestinationPath => ErrorView::InvalidDestinationPath,
            Error::InvalidDependencyPath => ErrorView::InvalidDependencyPath,
            Error::CreateTempDir => ErrorView::CreateTempDir,
            Error::UnkownDockerImageTag(t) => ErrorView::UnkownDockerImageTag(t@),
        }
    }
}

/// The short message of each kind of error.
pub open spec fn message_text(e: ErrorView) -> Seq<char> {
    match e {
        ErrorView::BuildFailure(_) => "Failure during building process."@,
        ErrorView::BuildFailureWithLogs(_) => "Failure during building process."@,
        ErrorView::BuildTimeout => "Time limit exceeded during building process."@,
        ErrorView::DockerDaemonFailure => "Docker daemon service did not respond."@,
        ErrorView::ArtifactRemovalFailure =>
            "Some artifacts downloaded by pchain-compile were not successfully removed."@,
        ErrorView::ManifestFailure => "Manifest file not found."@,
        ErrorView::InvalidSourcePath => "Source code path not valid."@,
        ErrorView::InvalidDestinationPath => "Destination path not valid."@,
        ErrorView::InvalidDependencyPath => "Dependency path not valid."@,
        ErrorView::CreateTempDir => "Fails to create temporary directory."@,
        ErrorView::UnkownDockerImageTag(_) => "Unknown docker image tag"@,
    }
}

/// The longer hint of each kind of error. Where the error carries a text, the
/// hint quotes it in full.
pub open spec fn detail_text(e: ErrorView) -> Seq<char> {
    match e {
        ErrorView::ArtifactRemovalFailure =>
            "The compilation was successful, but pchain-compile failed to stop its Docker containers. Please remove them manually."@,
        ErrorView::BuildFailure(m) => "\nDetails: "@ + m
            + "\nPlease rectify the errors and build your source code again."@,
        ErrorView::BuildFailureWithLogs(log) =>
            "There maybe some problems in the source code.\nBuilding log is as follows:\n\n"@
            + log + "\n"@,
        ErrorView::BuildTimeout =>
            "Failed to compile.\nDetails: A step of the building process did not finish within its time limit. Check if Docker is responsive on your machine and build your source code again."@,
        ErrorView::DockerDaemonFailure =>
            "Failed to compile.\nDetails: Docker Daemon Failure. Check if Docker is running on your machine and confirm read/write access privileges."@,
        ErrorView::ManifestFailure =>
            "Failed to compile.\nDetails: Manifest File Not Found. Check if the manifest file exists on the source code path."@,
        ErrorView::InvalidSourcePath =>
            "Failed to compile.\nDetails: Source Code Path Not Valid. Check if you have provided the correct path to your source code directory and confirm write access privileges."@,
        ErrorView::InvalidDestinationPath =>
            "\nDetails: Destination Path Not Valid. Check if you have provided the correct path to save your optimized WASM binary and confirm write access privileges."@,
        ErrorView::InvalidDependencyPath =>
            "\nDetails: Dependency Paths Specified Within Smart Contract Crate Not Valid. Check if you have provided the correct path to the dependencies on your source"@,
        ErrorView::CreateTempDir =>
            "\nDetails: The compilation process requires creating a temporary folder in your machine. Please check if the program has write permission to create folder."@,
        ErrorView::UnkownDockerImageTag(tag) => "\nDetails: The docker image tag ("@ + tag
            + ") is not recognised. Please choose tag from dockerhub https://hub.docker.com/r/parallelchainlab/pchain_compile"@,
    }
}

impl Error {
    /// The short message that names the kind of failure.
    pub fn message(&self) -> (out: String)
        ensures
            out@ == message_text(self@),
    {
        match self {
            Error::BuildFailure(_) => "Failure during building process.".to_owned(),
            Error::BuildFailureWithLogs(_) => "Failure during building process.".to_owned(),
            Error::BuildTimeout => "Time limit exceeded during building process.".to_owned(),
            Error::DockerDaemonFailure => "Docker daemon service did not respond.".to_owned(),
            Error::ArtifactRemovalFailure =>
                "Some artifacts downloaded by pchain-compile were not successfully removed.".to_owned(),
            Error::ManifestFailure => "Manifest file not found.".to_owned(),
            Error::InvalidSourcePath => "Source code path not valid.".to_owned(),
            Error::InvalidDestinationPath => "Destination path not valid.".to_owned(),
            Error::InvalidDependencyPath => "Dependency path not valid.".to_owned(),
            Error::CreateTempDir => "Fails to create temporary directory.".to_owned(),
            Error::UnkownDockerImageTag(_) => "Unknown docker image tag".to_owned(),
        }
    }

    /// The longer hint that tells the user what went wrong and what to do.
    pub fn detail(&self) -> (out: String)
        ensures
            out@ == detail_text(self@),
    {
        match self {
            Error::ArtifactRemovalFailure =>
                "The compilation was successful, but pchain-compile failed to stop its Docker containers. Please remove them manually.".to_owned(),
            Error::BuildFailure(e) => {
                let mut out = "\nDetails: ".to_owned();
                out.append(e.as_str());
                out.append("\nPlease rectify the errors and build your source code again.");
                out
            },
            Error::BuildFailureWithLogs(log) => {
                let mut out =
                    "There maybe some problems in the source code.\nBuilding log is as follows:\n\n".to_owned();
                out.append(log.as_str());
                out.append("\n");
                out
            },
            Error::BuildTimeout =>
                "Failed to compile.\nDetails: A step of the building process did not finish within its time limit. Check if Docker is responsive on your machine and build your source code again.".to_owned(),
            Error::DockerDaemonFailure =>
                "Failed to compile.\nDetails: Docker Daemon Failure. Check if Docker is running on your machine and confirm read/write access privileges.".to_owned(),
            Error::ManifestFailure =>
                "Failed to compile.\nDetails: Manifest File Not Found. Check if the manifest file exists on the source code path.".to_owned(),
            Error::InvalidSourcePath =>
                "Failed to compile.\nDetails: Source Code Path Not Valid. Check if you have provided the correct path to your source code directory and confirm write access privileges.".to_owned(),
            Error::InvalidDestinationPath =>
                "\nDetails: Destination Path Not Valid. Check if you have provided the correct path to save your optimized WASM binary and confirm write access privileges.".to_owned(),
            Error::InvalidDependencyPath =>
                "\nDetails: Dependency Paths Specified Within Smart Contract Crate Not Valid. Check if you have provided the correct path to the dependencies on your source".to_owned(),
            Error::CreateTempDir =>
                "\nDetails: The compilation process requires creating a temporary folder in your machine. Please check if the program has write permission to create folder.".to_owned(),
            Error::UnkownDockerImageTag(tag) => {
                let mut out = "\nDetails: The docker image tag (".to_owned();
                out.append(tag.as_str());
                out.append(
                    ") is not recognised. Please choose tag from dockerhub https://hub.docker.com/r/parallelchainlab/pchain_compile",
                );
                out
            },
        }
    }
}

impl Clone for Error {
    fn clone(&self) -> (out: Self)
        ensures
            out@ == self@,
    {
        match self {
            Error::BuildFailure(m) => Error::BuildFailure(m.clone()),
            Error::BuildFailureWithLogs(m) => Error::BuildFailureWithLogs(m.clone()),
            Error::BuildTimeout => Error::BuildTimeout,
            Error::DockerDaemonFailure => Error::DockerDaemonFailure,
            Error::ArtifactRemovalFailure => Error::ArtifactRemovalFailure,
            Error::ManifestFailure => Error::ManifestFailure,
            Error::InvalidSourcePath => Error::InvalidSourcePath,
            Error::InvalidDestinationPath => Error::InvalidDestinationPath,
            Error::InvalidDependencyPath => Error::InvalidDependencyPath,
            Error::CreateTempDir => Error::CreateTempDir,
            Error::UnkownDockerImageTag(t) => Error::UnkownDockerImageTag(t.clone()),
        }
    }
}

/// What the outcome of a step that yields a text denotes.
pub open spec fn text_result_view(r: Result<String, Error>) -> Result<Seq<char>, ErrorView> {
    match r {
        Ok(s) => Ok(s@),
        Err(e) => Err(e@),
    }
}

} // verus!
