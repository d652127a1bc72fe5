//! The exit statuses of the command line tool, and the shell command that
//! stops and removes a container when a build is abandoned.

use vstd::prelude::*;

verus! {

/// Describes the exit status of the building process.
#[derive(Clone, Debug, PartialEq, Eq)]
pub enum ProcessExitCode {
    /// The source code did not compile; the text says why.
    BuildFailure(String),
    /// The Docker daemon did not respond.
    DockerDaemonFailure,
    /// The container used for the build could not be removed.
    ArtifactRemovalFailure,
    /// The manifest of the package is missing.
    ManifestFailure,
    /// The path to the source code is not valid.
    InvalidSourcePath,
    /// The path to the destination is not valid.
    InvalidDestinationPath,
    /// The path to a dependency is not valid.
    InvalidDependenecyPath,
}

impl ProcessExitCode {
    /// The message of this exit status. It does not quote the text that a
    /// `BuildFailure` carries.
    pub open spec fn message_text(self) -> Seq<char> {
        match self {
            ProcessExitCode::BuildFailure(_) => "The source code did not compile."@,
            ProcessExitCode::DockerDaemonFailure => "Docker daemon service did not respond."@,
            ProcessExitCode::ArtifactRemovalFailure =>
                "Some artifacts downloaded by pchain-compile were not successfully removed."@,
            ProcessExitCode::ManifestFailure => "Manifest file not found."@,
            ProcessExitCode::InvalidSourcePath => "Source code path not valid."@,
            ProcessExitCode::InvalidDestinationPath => "Destination path not valid."@,
            ProcessExitCode::InvalidDependenecyPath => "Dependency path not valid."@,
        }
    }

    /// The message of this exit status.
    pub fn message(&self) -> (out: String)
        ensures
            out@ == self.message_text(),
    {
        match self {
            ProcessExitCode::BuildFailure(_) => "The source code did not compile.".to_owned(),
            ProcessExitCode::DockerDaemonFailure =>
                "Docker daemon service did not respond.".to_owned(),
            ProcessExitCode::ArtifactRemovalFailure =>
                "Some artifacts downloaded by pchain-compile were not successfully removed.".to_owned(),
            ProcessExitCode::ManifestFailure => "Manifest file not found.".to_owned(),
            ProcessExitCode::InvalidSourcePath => "Source code path not valid.".to_owned(),
            ProcessExitCode::InvalidDestinationPath => "Destination path not valid.".to_owned(),
            ProcessExitCode::InvalidDependenecyPath => "Dependency path not valid.".to_owned(),
        }
    }
}

/// A command for the shell of the machine: the shell's program, the option
/// that makes it run a script, and the script.
#[derive(Clone, Debug, PartialEq, Eq)]
pub struct ShellCommand {
    pub shell: String,
    pub option: String,
    pub script: String,
}

/// The script that stops a container and then removes it, with the output of
/// both commands sent to `silence`.
pub open spec fn stop_and_remove_script(container: Seq<char>, silence: Seq<char>) -> Seq<char> {
    "docker stop "@ + container + " "@ + silence + " && docker rm "@ + container + " "@ + silence
}

/// The command that stops and removes the container `container_name`, for
/// `cmd` where `windows` is set and for `bash` elsewhere.
pub fn stop_and_remove_command(container_name: &str, windows: bool) -> (out: ShellCommand)
    ensures
        out.shell@ == (if windows { "cmd"@ } else { "/bin/bash"@ }),
        out.option@ == (if windows { "/C"@ } else { "-c"@ }),
        out.script@ == stop_and_remove_script(
            container_name@,
            if windows { ">nul"@ } else { ">/dev/null"@ },
        ),
{
    let silence = if windows { ">nul" } else { ">/dev/null" };
    let mut script = "docker stop ".to_owned();
    script.append(container_name);
    script.append(" ");
    script.append(silence);
    script.append(" && docker rm ");
    script.append(container_name);
    script.append(" ");
    script.append(silence);
    ShellCommand {
        shell: if windows { "cmd".to_owned() } else { "/bin/bash".to_owned() },
        option: if windows { "/C".to_owned() } else { "-c".to_owned() },
        script,
    }
}

} // verus!
