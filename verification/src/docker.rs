//! What is asked of the Docker daemon during a build, as plain data: the name
//! and the image of the container, how it is created and removed, which
//! archive carries a directory into it, and the commands that run inside it.

use vstd::prelude::*;
use crate::archive::{files_from_tar_gz, files_of, files_result_view};
use crate::config::DockerConfig;
use crate::error::{text_result_view, Error, ErrorView};
use crate::paths::{archive_root, file_name, last_component, rooted, sanitize, sanitized};
use crate::text::{clone_texts, opt_view, same_text, texts};
use rand::Rng;

verus! {

/// The time limit, in seconds, of every command but the compilation itself.
pub const DOCKER_EXEC_TIME_LIMIT: u64 = 15;

/// The number of characters of a container name.
pub const CONTAINER_NAME_LENGTH: usize = 5;

/// The repository of the images in which contracts are compiled.
pub open spec fn image_repository() -> Seq<char> {
    "parallelchainlab/pchain_compile"@
}

/// The tag that is used where the caller names none.
pub open spec fn default_image_tag() -> Seq<char> {
    "0.4.2"@
}

/// Whether `tag` is one of the tags that can be used.
pub open spec fn is_known_image_tag(tag: Seq<char>) -> bool {
    tag == "0.4.2"@ || tag == "mainnet01"@
}

/// The reference of the image with the tag `tag`.
pub open spec fn image_reference(tag: Seq<char>) -> Seq<char> {
    image_repository() + ":"@ + tag
}

/// Whether `c` is a letter of the Latin alphabet or a decimal digit.
pub open spec fn is_alphanumeric(c: char) -> bool {
    ('A' <= c && c <= 'Z') || ('a' <= c && c <= 'z') || ('0' <= c && c <= '9')
}

/// Whether `name` has the form of a generated container name.
pub open spec fn is_container_name(name: Seq<char>) -> bool {
    &&& name.len() == CONTAINER_NAME_LENGTH
    &&& forall|i: int| 0 <= i < name.len() ==> is_alphanumeric(#[trigger] name[i])
}

/// One sample of `rand::distributions::Alphanumeric` from the generator of the
/// thread: some letter or digit, and not the same at every call.
#[verifier::external_body]
fn random_alphanumeric() -> (c: char)
    ensures
        is_alphanumeric(c),
{
    char::from(rand::thread_rng().sample(rand::distributions::Alphanumeric))
}

/// Generates a random name for a Docker container: five letters or digits.
pub fn random_container_name() -> (name: String)
    ensures
        is_container_name(name@),
{
    let mut name = String::new();
    let mut i: usize = 0;
    while i < CONTAINER_NAME_LENGTH
        invariant
            i <= CONTAINER_NAME_LENGTH,
            name@.len() == i,
            forall|k: int| 0 <= k < name@.len() ==> is_alphanumeric(#[trigger] name@[k]),
        decreases CONTAINER_NAME_LENGTH - i,
    {
        let c = random_alphanumeric();
        name.push(c);
        i += 1;
    }
    name
}

/// The tag that `config` asks for, or the default tag where it asks for none.
pub open spec fn requested_tag(config: Option<Seq<char>>) -> Seq<char> {
    match config {
        Some(tag) => tag,
        None => default_image_tag(),
    }
}

/// The tag of the image to use: the one that `config` asks for, which is
/// refused where it is not a known tag.
pub fn docker_image_tag(config: &DockerConfig) -> (out: Result<String, Error>)
    ensures
        text_result_view(out) == (if is_known_image_tag(requested_tag(config@)) {
            Ok::<Seq<char>, ErrorView>(requested_tag(config@))
        } else {
            Err(ErrorView::UnkownDockerImageTag(requested_tag(config@)))
        }),
{
    let tag = match &config.tag {
        Some(tag) => tag.clone(),
        None => "0.4.2".to_owned(),
    };
    if same_text(tag.as_str(), "0.4.2") || same_text(tag.as_str(), "mainnet01") {
        Ok(tag)
    } else {
        Err(Error::UnkownDockerImageTag(tag))
    }
}

/// One status that the daemon reports while it pulls an image.
#[derive(Clone, Debug, PartialEq, Eq)]
pub struct PullStatus {
    /// The error that the status reports, if it reports one.
    pub error: Option<String>,
}

impl View for PullStatus {
    type V = Option<Seq<char>>;

    open spec fn view(&self) -> Option<Seq<char>> {
        opt_view(self.error)
    }
}

/// What the answer of the daemon to a pull denotes: the error of each status,
/// if it reports one, in the order of the statuses.
pub open spec fn statuses_view(statuses: Option<Vec<PullStatus>>) -> Option<
    Seq<Option<Seq<char>>>,
> {
    match statuses {
        Some(list) => Some(list@.map_values(|s: PullStatus| s@)),
        None => None,
    }
}

/// Whether every status of `statuses` reports an error. This holds of an
/// empty list.
pub open spec fn all_failed(statuses: Seq<Option<Seq<char>>>) -> bool {
    forall|i: int| 0 <= i < statuses.len() ==> (#[trigger] statuses[i]) is Some
}

/// The reference of the image with the tag `tag` (see [`image_reference`]).
pub fn image_of(tag: &str) -> (out: String)
    ensures
        out@ == image_reference(tag@),
{
    let mut image = "parallelchainlab/pchain_compile".to_owned();
    image.append(":");
    image.append(tag);
    image
}

/// Whether a pull that was answered with `statuses` succeeded: the daemon was
/// reached and reported at least one status without an error.
pub open spec fn pull_succeeded(statuses: Option<Seq<Option<Seq<char>>>>) -> bool {
    match statuses {
        Some(list) => !all_failed(list),
        None => false,
    }
}

/// Decides how pulling the image with the tag `tag` ended. `statuses` is what
/// the daemon reported, or `None` where it could not be reached. The pull
/// succeeded, and the reference of the image is returned, if and only if the
/// daemon reported at least one status without an error.
pub fn pull_image(tag: &str, statuses: &Option<Vec<PullStatus>>) -> (out: Result<String, Error>)
    ensures
        text_result_view(out) == (if pull_succeeded(statuses_view(*statuses)) {
            Ok::<Seq<char>, ErrorView>(image_reference(tag@))
        } else {
            Err(ErrorView::DockerDaemonFailure)
        }),
{
    match statuses {
        None => Err(Error::DockerDaemonFailure),
        Some(list) => {
            let ghost errors = list@.map_values(|s: PullStatus| s@);
            let mut i: usize = 0;
            while i < list.len()
                invariant
                    *statuses == Some(*list),
                    errors == list@.map_values(|s: PullStatus| s@),
                    i <= list.len(),
                    forall|k: int| 0 <= k < i ==> (#[trigger] errors[k]) is Some,
                decreases list.len() - i,
            {
                if list[i].error.is_none() {
                    assert(errors[i as int] is None);
                    return Ok(image_of(tag));
                }
                assert(errors[i as int] is Some);
                i += 1;
            }
            Err(Error::DockerDaemonFailure)
        },
    }
}

/// How a container is created.
#[derive(Clone, Debug, PartialEq, Eq)]
pub struct ContainerSpec {
    /// The name of the container.
    pub name: String,
    /// The reference of its image.
    pub image: String,
    /// Whether its standard input stays open.
    pub open_stdin: bool,
    /// Whether a terminal is attached to it.
    pub tty: bool,
    /// Whether it runs privileged.
    pub privileged: bool,
}

/// What a [`ContainerSpec`] denotes.
pub struct ContainerSpecView {
    pub name: Seq<char>,
    pub image: Seq<char>,
    pub open_stdin: bool,
    pub tty: bool,
    pub privileged: bool,
}

impl View for ContainerSpec {
    type V = ContainerSpecView;

    open spec fn view(&self) -> ContainerSpecView {
        ContainerSpecView {
            name: self.name@,
            image: self.image@,
            open_stdin: self.open_stdin,
            tty: self.tty,
            privileged: self.privileged,
        }
    }
}

/// The container `name` of the image `image`: privileged, with its standard
/// input open and a terminal attached.
pub open spec fn container_spec(name: Seq<char>, image: Seq<char>) -> ContainerSpecView {
    ContainerSpecView { name, image, open_stdin: true, tty: true, privileged: true }
}

/// Describes the container `container_name` of the image `image` (see
/// [`container_spec`]).
pub fn start_container(container_name: &str, image: String) -> (out: ContainerSpec)
    ensures
        out@ == container_spec(container_name@, image@),
{
    ContainerSpec {
        name: container_name.to_owned(),
        image,
        open_stdin: true,
        tty: true,
        privileged: true,
    }
}

/// How a container is removed.
#[derive(Clone, Debug, PartialEq, Eq)]
pub struct RemovalSpec {
    /// The name of the container.
    pub name: String,
    /// Whether its volumes are removed with it.
    pub volumes: bool,
    /// Whether the link to it is removed in its place.
    pub link: bool,
    /// Whether it is removed although it runs.
    pub force: bool,
}

/// What a [`RemovalSpec`] denotes.
pub struct RemovalSpecView {
    pub name: Seq<char>,
    pub volumes: bool,
    pub link: bool,
    pub force: bool,
}

impl View for RemovalSpec {
    type V = RemovalSpecView;

    open spec fn view(&self) -> RemovalSpecView {
        RemovalSpecView {
            name: self.name@,
            volumes: self.volumes,
            link: self.link,
            force: self.force,
        }
    }
}

/// The removal of the container `name`: by force, and with its volumes.
pub open spec fn removal_spec(name: Seq<char>) -> RemovalSpecView {
    RemovalSpecView { name, volumes: true, link: false, force: true }
}

/// Describes the removal of the container `container_name` (see
/// [`removal_spec`]).
pub fn remove_container(container_name: &str) -> (out: RemovalSpec)
    ensures
        out@ == removal_spec(container_name@),
{
    RemovalSpec { name: container_name.to_owned(), volumes: true, link: false, force: true }
}

/// How a directory of this machine is carried into a container.
#[derive(Clone, Debug, PartialEq, Eq)]
pub struct Upload {
    /// The directory to pack.
    pub source_path: String,
    /// The path of the directory inside the archive.
    pub archive_root: String,
    /// The name of the temporary file that holds the archive.
    pub archive_file: String,
    /// The path in the container under which the archive is unpacked.
    pub container_path: String,
}

/// The name of the temporary archive of a directory named `directory`, for the
/// container `container`.
pub open spec fn archive_file_name(container: Seq<char>, directory: Seq<char>) -> Seq<char> {
    container + "-"@ + directory + ".tar.gz"@
}

/// Plans how the directory `source_path` is copied into the container
/// `container_name`: packed under its sanitized path, in a temporary archive
/// that is named after the container and after the directory as it is
/// written, and unpacked at the root of the container. There is no plan for a
/// path without a file name.
pub fn copy_files(container_name: &str, source_path: &str) -> (out: Option<Upload>)
    ensures
        out is Some <==> last_component(source_path@) is Some,
        out matches Some(upload) ==> {
            &&& upload.source_path@ == source_path@
            &&& upload.archive_root@ == archive_root(source_path@)
            &&& upload.archive_file@ == archive_file_name(
                container_name@,
                last_component(source_path@)->0,
            )
            &&& upload.container_path@ == "/"@
        },
{
    let root = rooted(source_path);
    match file_name(source_path) {
        None => None,
        Some(directory) => {
            let mut archive_file = container_name.to_owned();
            archive_file.append("-");
            archive_file.append(directory.as_str());
            archive_file.append(".tar.gz");
            Some(
                Upload {
                    source_path: source_path.to_owned(),
                    archive_root: root,
                    archive_file,
                    container_path: "/".to_owned(),
                },
            )
        },
    }
}

/// Decides what was fetched from a container. `downloaded` holds the archive,
/// or the daemon's message where the download failed. The files of the
/// archive are returned; an archive without any file is a failure of the
/// build, reported with the log of the compilation.
pub fn copy_files_from(downloaded: Result<Vec<u8>, String>, build_log: String) -> (out: Result<
    Vec<(String, Vec<u8>)>,
    Error,
>)
    ensures
        files_result_view(out) == fetched(
            crate::archive::bytes_result_view(downloaded),
            build_log@,
        ),
{
    match downloaded {
        Err(message) => Err(Error::BuildFailure(message)),
        Ok(bytes) => match files_from_tar_gz(bytes) {
            Err(e) => Err(e),
            Ok(files) => if files.len() == 0 {
                Err(Error::BuildFailureWithLogs(build_log))
            } else {
                Ok(files)
            },
        },
    }
}

/// What a download amounts to (see [`copy_files_from`]).
pub open spec fn fetched(downloaded: Result<Seq<u8>, Seq<char>>, build_log: Seq<char>) -> Result<
    Seq<(Seq<char>, Seq<u8>)>,
    ErrorView,
> {
    match downloaded {
        Err(message) => Err(ErrorView::BuildFailure(message)),
        Ok(bytes) => match files_of(bytes) {
            Err(e) => Err(e),
            Ok(files) => if files.len() == 0 {
                Err(ErrorView::BuildFailureWithLogs(build_log))
            } else {
                Ok(files)
            },
        },
    }
}

/// One command of the build: where it runs, what it runs, whether its output
/// is kept, and the time in seconds within which it must end, if it is bounded.
#[derive(Debug, PartialEq, Eq)]
pub struct PipelineStep {
    pub working_dir: String,
    pub command: Vec<String>,
    pub capture_output: bool,
    pub timeout_secs: Option<u64>,
}

/// What a [`PipelineStep`] denotes.
pub struct StepView {
    pub working_dir: Seq<char>,
    pub command: Seq<Seq<char>>,
    pub capture_output: bool,
    pub timeout_secs: Option<u64>,
}

impl View for PipelineStep {
    type V = StepView;

    open spec fn view(&self) -> StepView {
        StepView {
            working_dir: self.working_dir@,
            command: texts(self.command@),
            capture_output: self.capture_output,
            timeout_secs: self.timeout_secs,
        }
    }
}

impl Clone for PipelineStep {
    fn clone(&self) -> (out: Self)
        ensures
            out@ == self@,
    {
        PipelineStep {
            working_dir: self.working_dir.clone(),
            command: clone_texts(&self.command),
            capture_output: self.capture_output,
            timeout_secs: self.timeout_secs,
        }
    }
}

/// What a list of steps denotes.
pub open spec fn steps_view(steps: Seq<PipelineStep>) -> Seq<StepView> {
    steps.map_values(|s: PipelineStep| s@)
}

/// The commands that build a contract in a container, in the order in which
/// they run, and the folder of the container in which they leave the result.
#[derive(Debug, PartialEq, Eq)]
pub struct BuildPlan {
    pub steps: Vec<PipelineStep>,
    pub output_folder: String,
}

/// The folder of the container that holds the source code of `source_path`.
pub open spec fn code_folder(source_path: Seq<char>) -> Seq<char> {
    "/"@ + sanitized(source_path)
}

/// The folder of the container in which the compiler leaves the binary.
pub open spec fn build_folder(source_path: Seq<char>) -> Seq<char> {
    code_folder(source_path) + "/target/wasm32-unknown-unknown/release"@
}

/// The folder of the container from which the result is fetched.
pub open spec fn output_folder() -> Seq<char> {
    "/result"@
}

/// The compilation itself. With `locked` it must honour the lock file.
pub open spec fn compile_command(locked: bool) -> Seq<Seq<char>> {
    if locked {
        seq!["cargo"@, "build"@, "--locked"@, "--target"@, "wasm32-unknown-unknown"@, "--release"@]
    } else {
        seq!["cargo"@, "build"@, "--target"@, "wasm32-unknown-unknown"@, "--release"@]
    }
}

/// A step that keeps no output and must end within the time limit.
pub open spec fn bounded(working_dir: Seq<char>, command: Seq<Seq<char>>) -> StepView {
    StepView {
        working_dir,
        command,
        capture_output: false,
        timeout_secs: Some(DOCKER_EXEC_TIME_LIMIT),
    }
}

/// The steps that build the contract of `source_path` into `wasm_file`.
///
/// The compilation comes first. It alone keeps its output and has no time
/// limit. Then the optimiser is made executable, the binary is optimised for
/// size, formatting and panicking code is snipped, dead code is eliminated,
/// the output folder is made and the binary is moved into it. With
/// `use_lock_file`, the lock file is moved there last.
pub open spec fn pipeline(source_path: Seq<char>, use_lock_file: bool, wasm_file: Seq<char>) -> Seq<
    StepView,
> {
    let code = code_folder(source_path);
    let build = build_folder(source_path);
    let steps = seq![
        StepView {
            working_dir: code,
            command: compile_command(use_lock_file),
            capture_output: true,
            timeout_secs: None,
        },
        bounded(build, seq!["chmod"@, "+x"@, "/root/bin/wasm-opt"@]),
        bounded(build, seq!["/root/bin/wasm-opt"@, "-Oz"@, wasm_file, "--output"@, "temp.wasm"@]),
        bounded(
            build,
            seq![
                "wasm-snip"@,
                "temp.wasm"@,
                "--output"@,
                "temp2.wasm"@,
                "--snip-rust-fmt-code"@,
                "--snip-rust-panicking-code"@,
            ],
        ),
        bounded(
            build,
            seq!["/root/bin/wasm-opt"@, "--dce"@, "temp2.wasm"@, "--output"@, "optimized.wasm"@],
        ),
        bounded(build, seq!["mkdir"@, "-p"@, output_folder()]),
        bounded(build, seq!["mv"@, "optimized.wasm"@, output_folder() + "/"@ + wasm_file]),
    ];
    if use_lock_file {
        steps.push(bounded(code, seq!["mv"@, "Cargo.lock"@, output_folder()]))
    } else {
        steps
    }
}

/// The command of the compilation (see [`compile_command`]).
pub fn compilation(locked: bool) -> (out: Vec<String>)
    ensures
        texts(out@) == compile_command(locked),
{
    let command = if locked {
        vec![
            "cargo".to_owned(),
            "build".to_owned(),
            "--locked".to_owned(),
            "--target".to_owned(),
            "wasm32-unknown-unknown".to_owned(),
            "--release".to_owned(),
        ]
    } else {
        vec![
            "cargo".to_owned(),
            "build".to_owned(),
            "--target".to_owned(),
            "wasm32-unknown-unknown".to_owned(),
            "--release".to_owned(),
        ]
    };
    assert(texts(command@) =~= compile_command(locked));
    command
}

/// A bounded step of `command` in `working_dir`.
fn bounded_step(working_dir: &str, command: Vec<String>) -> (out: PipelineStep)
    ensures
        out@ == bounded(working_dir@, texts(command@)),
{
    PipelineStep {
        working_dir: working_dir.to_owned(),
        command,
        capture_output: false,
        timeout_secs: Some(DOCKER_EXEC_TIME_LIMIT),
    }
}

/// Plans the build of the contract of `source_path` into `wasm_file` inside a
/// container (see [`pipeline`]). The lock file is honoured, and kept with the
/// result, where `locked` asks for it and `lock_file_exists` says that the
/// source code has one.
pub fn build_contracts(source_path: &str, locked: bool, lock_file_exists: bool, wasm_file: &str) -> (out:
    BuildPlan)
    ensures
        steps_view(out.steps@) == pipeline(source_path@, locked && lock_file_exists, wasm_file@),
        out.output_folder@ == output_folder(),
{
    let use_lock_file = locked && lock_file_exists;
    let mut code = "/".to_owned();
    code.append(sanitize(source_path).as_str());
    let mut build = code.clone();
    build.append("/target/wasm32-unknown-unknown/release");
    let mut output_file = "/result".to_owned();
    output_file.append("/");
    output_file.append(wasm_file);

    let compile = compilation(use_lock_file);
    let chmod = vec!["chmod".to_owned(), "+x".to_owned(), "/root/bin/wasm-opt".to_owned()];
    assert(texts(chmod@) =~= seq!["chmod"@, "+x"@, "/root/bin/wasm-opt"@]);
    let optimize = vec![
        "/root/bin/wasm-opt".to_owned(),
        "-Oz".to_owned(),
        wasm_file.to_owned(),
        "--output".to_owned(),
        "temp.wasm".to_owned(),
    ];
    assert(texts(optimize@) =~= seq![
        "/root/bin/wasm-opt"@,
        "-Oz"@,
        wasm_file@,
        "--output"@,
        "temp.wasm"@,
    ]);
    let snip = vec![
        "wasm-snip".to_owned(),
        "temp.wasm".to_owned(),
        "--output".to_owned(),
        "temp2.wasm".to_owned(),
        "--snip-rust-fmt-code".to_owned(),
        "--snip-rust-panicking-code".to_owned(),
    ];
    assert(texts(snip@) =~= seq![
        "wasm-snip"@,
        "temp.wasm"@,
        "--output"@,
        "temp2.wasm"@,
        "--snip-rust-fmt-code"@,
        "--snip-rust-panicking-code"@,
    ]);
    let eliminate = vec![
        "/root/bin/wasm-opt".to_owned(),
        "--dce".to_owned(),
        "temp2.wasm".to_owned(),
        "--output".to_owned(),
        "optimized.wasm".to_owned(),
    ];
    assert(texts(eliminate@) =~= seq![
        "/root/bin/wasm-opt"@,
        "--dce"@,
        "temp2.wasm"@,
        "--output"@,
        "optimized.wasm"@,
    ]);
    let make_folder = vec!["mkdir".to_owned(), "-p".to_owned(), "/result".to_owned()];
    assert(texts(make_folder@) =~= seq!["mkdir"@, "-p"@, output_folder()]);
    let move_binary = vec!["mv".to_owned(), "optimized.wasm".to_owned(), output_file];
    assert(texts(move_binary@) =~= seq![
        "mv"@,
        "optimized.wasm"@,
        output_folder() + "/"@ + wasm_file@,
    ]);

    let mut steps = vec![
        PipelineStep {
            working_dir: code.clone(),
            command: compile,
            capture_output: true,
            timeout_secs: None,
        },
        bounded_step(build.as_str(), chmod),
        bounded_step(build.as_str(), optimize),
        bounded_step(build.as_str(), snip),
        bounded_step(build.as_str(), eliminate),
        bounded_step(build.as_str(), make_folder),
        bounded_step(build.as_str(), move_binary),
    ];
    if use_lock_file {
        let move_lock = vec!["mv".to_owned(), "Cargo.lock".to_owned(), "/result".to_owned()];
        assert(texts(move_lock@) =~= seq!["mv"@, "Cargo.lock"@, output_folder()]);
        steps.push(bounded_step(code.as_str(), move_lock));
    }
    assert(steps_view(steps@) =~= pipeline(source_path@, use_lock_file, wasm_file@));
    BuildPlan { steps, output_folder: "/result".to_owned() }
}

/// The compilation comes first, keeps its output and is the only step without
/// a time limit; every later step is bounded by the same limit.
pub proof fn lemma_only_the_compilation_is_unbounded(
    source_path: Seq<char>,
    use_lock_file: bool,
    wasm_file: Seq<char>,
    i: int,
)
    requires
        0 <= i < pipeline(source_path, use_lock_file, wasm_file).len(),
    ensures
        pipeline(source_path, use_lock_file, wasm_file).len() == (if use_lock_file {
            8int
        } else {
            7int
        }),
        pipeline(source_path, use_lock_file, wasm_file)[i].timeout_secs == (if i == 0 {
            None::<u64>
        } else {
            Some(DOCKER_EXEC_TIME_LIMIT)
        }),
        pipeline(source_path, use_lock_file, wasm_file)[i].capture_output == (i == 0),
{
}

} // verus!
