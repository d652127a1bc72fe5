use pchain_compile::error::Error;
use pchain_compile::processes::{stop_and_remove_command, ProcessExitCode};

#[test]
fn build_failure_detail_quotes_the_text() {
    let e = Error::BuildFailure("boom".to_string());
    assert_eq!(
        e.detail(),
        "\nDetails: boom\nPlease rectify the errors and build your source code again."
    );
    assert_eq!(e.message(), "Failure during building process.");
}

#[test]
fn build_failure_with_logs_detail_quotes_the_log() {
    let e = Error::BuildFailureWithLogs("error[E0425]: cannot find value".to_string());
    assert_eq!(
        e.detail(),
        "There maybe some problems in the source code.\nBuilding log is as follows:\n\nerror[E0425]: cannot find value\n"
    );
    assert_eq!(e.message(), "Failure during building process.");
}

#[test]
fn unknown_tag_detail_names_the_tag() {
    let e = Error::UnkownDockerImageTag("latest".to_string());
    assert_eq!(
        e.detail(),
        "\nDetails: The docker image tag (latest) is not recognised. Please choose tag from dockerhub https://hub.docker.com/r/parallelchainlab/pchain_compile"
    );
    assert_eq!(e.message(), "Unknown docker image tag");
}

#[test]
fn details_of_the_errors_without_text() {
    assert_eq!(
        Error::ArtifactRemovalFailure.detail(),
        "The compilation was successful, but pchain-compile failed to stop its Docker containers. Please remove them manually."
    );
    assert_eq!(
        Error::DockerDaemonFailure.detail(),
        "Failed to compile.\nDetails: Docker Daemon Failure. Check if Docker is running on your machine and confirm read/write access privileges."
    );
    assert_eq!(
        Error::ManifestFailure.detail(),
        "Failed to compile.\nDetails: Manifest File Not Found. Check if the manifest file exists on the source code path."
    );
    assert_eq!(
        Error::InvalidSourcePath.detail(),
        "Failed to compile.\nDetails: Source Code Path Not Valid. Check if you have provided the correct path to your source code directory and confirm write access privileges."
    );
    assert_eq!(
        Error::InvalidDestinationPath.detail(),
        "\nDetails: Destination Path Not Valid. Check if you have provided the correct path to save your optimized WASM binary and confirm write access privileges."
    );
    assert_eq!(
        Error::InvalidDependencyPath.detail(),
        "\nDetails: Dependency Paths Specified Within Smart Contract Crate Not Valid. Check if you have provided the correct path to the dependencies on your source"
    );
    assert_eq!(
        Error::CreateTempDir.detail(),
        "\nDetails: The compilation process requires creating a temporary folder in your machine. Please check if the program has write permission to create folder."
    );
    assert!(Error::BuildTimeout.detail().contains("time limit"));
}

#[test]
fn messages_of_the_errors_without_text() {
    assert_eq!(Error::DockerDaemonFailure.message(), "Docker daemon service did not respond.");
    assert_eq!(
        Error::ArtifactRemovalFailure.message(),
        "Some artifacts downloaded by pchain-compile were not successfully removed."
    );
    assert_eq!(Error::ManifestFailure.message(), "Manifest file not found.");
    assert_eq!(Error::InvalidSourcePath.message(), "Source code path not valid.");
    assert_eq!(Error::InvalidDestinationPath.message(), "Destination path not valid.");
    assert_eq!(Error::InvalidDependencyPath.message(), "Dependency path not valid.");
    assert_eq!(Error::CreateTempDir.message(), "Fails to create temporary directory.");
    assert_eq!(Error::BuildTimeout.message(), "Time limit exceeded during building process.");
}

#[test]
fn timeout_and_failure_have_different_messages_and_kinds() {
    let timeout = Error::BuildTimeout;
    let failure = Error::BuildFailureWithLogs(String::new());
    assert_ne!(timeout, failure);
    assert_ne!(timeout.message(), failure.message());
    assert_ne!(timeout.detail(), failure.detail());
}

#[test]
fn a_copy_of_an_error_equals_it() {
    let e = Error::BuildFailureWithLogs("log".to_string());
    assert_eq!(e.clone(), e);
    assert_eq!(Error::BuildTimeout.clone(), Error::BuildTimeout);
}

#[test]
fn exit_code_messages() {
    assert_eq!(
        ProcessExitCode::BuildFailure("x".to_string()).message(),
        "The source code did not compile."
    );
    assert_eq!(
        ProcessExitCode::DockerDaemonFailure.message(),
        "Docker daemon service did not respond."
    );
    assert_eq!(
        ProcessExitCode::ArtifactRemovalFailure.message(),
        "Some artifacts downloaded by pchain-compile were not successfully removed."
    );
    assert_eq!(ProcessExitCode::ManifestFailure.message(), "Manifest file not found.");
    assert_eq!(ProcessExitCode::InvalidSourcePath.message(), "Source code path not valid.");
    assert_eq!(
        ProcessExitCode::InvalidDestinationPath.message(),
        "Destination path not valid."
    );
    assert_eq!(ProcessExitCode::InvalidDependenecyPath.message(), "Dependency path not valid.");
}

#[test]
fn stop_and_remove_on_unix() {
    let command = stop_and_remove_command("aB3dE", false);
    assert_eq!(command.shell, "/bin/bash");
    assert_eq!(command.option, "-c");
    assert_eq!(
        command.script,
        "docker stop aB3dE >/dev/null && docker rm aB3dE >/dev/null"
    );
}

#[test]
fn stop_and_remove_on_windows() {
    let command = stop_and_remove_command("aB3dE", true);
    assert_eq!(command.shell, "cmd");
    assert_eq!(command.option, "/C");
    assert_eq!(command.script, "docker stop aB3dE >nul && docker rm aB3dE >nul");
}
