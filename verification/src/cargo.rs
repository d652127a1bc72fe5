//! Building a contract on this machine, without a container: the steps of the
//! build, what the failure of each amounts to, and the log of the compiler.

use vstd::prelude::*;
use vstd::utf8::{decode_utf8, valid_utf8};
use crate::docker::random_container_name;
use crate::error::{Error, ErrorView};
use crate::text::{clone_texts, concat_all, join_all, texts};

verus! {

/// What `String::from_utf8_lossy` makes of `bytes`: their text, with each
/// ill-formed part replaced by U+FFFD.
pub uninterp spec fn utf8_lossy(bytes: Seq<u8>) -> Seq<char>;

/// `String::from_utf8_lossy`, which depends on the bytes alone and leaves
/// well-formed UTF-8 as it is.
#[verifier::external_body]
fn lossy_text(buf: &[u8]) -> (out: String)
    ensures
        out@ == utf8_lossy(buf@),
        valid_utf8(buf@) ==> out@ == decode_utf8(buf@),
{
    String::from_utf8_lossy(buf).into_owned()
}

/// Collects what the compiler writes while it builds.
#[derive(Debug, PartialEq, Eq)]
pub struct BuildLogWritter {
    /// The chunks written so far, oldest first.
    pub buffer: Vec<String>,
}

impl Default for BuildLogWritter {
    fn default() -> (out: Self)
        ensures
            out.buffer@.len() == 0,
    {
        BuildLogWritter { buffer: Vec::new() }
    }
}

impl BuildLogWritter {
    /// A writer that has collected nothing.
    pub fn new() -> (out: Self)
        ensures
            out.buffer@.len() == 0,
    {
        BuildLogWritter { buffer: Vec::new() }
    }

    /// Takes all of `buf` as one more chunk of the log and returns the number
    /// of bytes taken, which is the length of `buf`. The chunk is the text of
    /// `buf`, with each ill-formed part replaced: bytes that are well-formed
    /// UTF-8 are taken as the text they encode.
    pub fn write(&mut self, buf: &[u8]) -> (taken: usize)
        ensures
            taken == buf@.len(),
            texts(final(self).buffer@) == texts(old(self).buffer@).push(utf8_lossy(buf@)),
            valid_utf8(buf@) ==> utf8_lossy(buf@) == decode_utf8(buf@),
    {
        let chunk = lossy_text(buf);
        self.buffer.push(chunk);
        assert(texts(self.buffer@) =~= texts(old(self).buffer@).push(utf8_lossy(buf@)));
        buf.len()
    }

    /// Nothing is held back, so there is nothing to flush.
    pub fn flush(&mut self)
        ensures
            *final(self) == *old(self),
    {
    }
}

/// The state that a compilation on this machine works with: the log of what
/// the compiler wrote.
pub struct CargoConfig {
    logs: BuildLogWritter,
}

impl CargoConfig {
    /// The text of the log: all chunks, in the order in which they were written.
    pub closed spec fn log_text(&self) -> Seq<char> {
        concat_all(texts(self.logs.buffer@))
    }

    /// A configuration with an empty log.
    pub fn new() -> (out: Self)
        ensures
            out.log_text() == Seq::<char>::empty(),
    {
        CargoConfig { logs: BuildLogWritter::new() }
    }

    /// Adds to the log what the compiler wrote in `buf` (see
    /// [`BuildLogWritter::write`]).
    pub fn record(&mut self, buf: &[u8])
        ensures
            final(self).log_text() == old(self).log_text() + utf8_lossy(buf@),
            valid_utf8(buf@) ==> utf8_lossy(buf@) == decode_utf8(buf@),
    {
        self.logs.write(buf);
        proof {
            let all = texts(self.logs.buffer@);
            assert(all.drop_last() =~= texts(old(self).logs.buffer@));
        }
    }

    /// Returns the log as one string.
    pub fn logs(&self) -> (out: String)
        ensures
            out@ == self.log_text(),
    {
        join_all(&self.logs.buffer)
    }
}

/// A folder that the driver of a build knows.
#[derive(Clone, Copy, Debug, PartialEq, Eq, Structural)]
pub enum Folder {
    /// The folder of the source code.
    Source,
    /// The temporary working folder of the build.
    Scratch,
    /// The folder in which the artifact is saved.
    Destination,
}

/// A file of this machine: a folder, and the path from it to the file,
/// component by component.
#[derive(Debug, PartialEq, Eq)]
pub struct HostPath {
    pub folder: Folder,
    pub parts: Vec<String>,
}

/// What a [`HostPath`] denotes.
pub struct HostPathView {
    pub folder: Folder,
    pub parts: Seq<Seq<char>>,
}

impl View for HostPath {
    type V = HostPathView;

    open spec fn view(&self) -> HostPathView {
        HostPathView { folder: self.folder, parts: texts(self.parts@) }
    }
}

impl Clone for HostPath {
    fn clone(&self) -> (out: Self)
        ensures
            out@ == self@,
    {
        HostPath { folder: self.folder, parts: clone_texts(&self.parts) }
    }
}

/// One step of a build on this machine.
#[derive(Debug, PartialEq, Eq)]
pub enum HostStep {
    /// Load the workspace of the package from its manifest, and build nothing.
    PrepareWorkspace { manifest: HostPath },
    /// Compile the package of the manifest for `target` with the profile
    /// `profile`; with `locked`, the lock file must be honoured.
    Compile { manifest: HostPath, locked: bool, target: String, profile: String },
    /// Copy the lock file to the artifact. A failure of this step is not held
    /// against the build.
    KeepLockFile { from: HostPath, to: HostPath },
    /// Optimise `input` for size, aggressively, into `output`.
    OptimizeForSize { input: HostPath, output: HostPath },
    /// Snip the formatting and the panicking code of `input` into `output`.
    Snip { input: HostPath, output: HostPath },
    /// Eliminate the dead code of `input` into `output`.
    EliminateDeadCode { input: HostPath, output: HostPath },
}

/// What a [`HostStep`] denotes.
pub enum HostStepView {
    PrepareWorkspace { manifest: HostPathView },
    Compile { manifest: HostPathView, locked: bool, target: Seq<char>, profile: Seq<char> },
    KeepLockFile { from: HostPathView, to: HostPathView },
    OptimizeForSize { input: HostPathView, output: HostPathView },
    Snip { input: HostPathView, output: HostPathView },
    EliminateDeadCode { input: HostPathView, output: HostPathView },
}

impl View for HostStep {
    type V = HostStepView;

    open spec fn view(&self) -> HostStepView {
        match *self {
            HostStep::PrepareWorkspace { manifest } => HostStepView::PrepareWorkspace {
                manifest: manifest@,
            },
            HostStep::Compile { manifest, locked, target, profile } => HostStepView::Compile {
                manifest: manifest@,
                locked,
                target: target@,
                profile: profile@,
            },
            HostStep::KeepLockFile { from, to } => HostStepView::KeepLockFile {
                from: from@,
                to: to@,
            },
            HostStep::OptimizeForSize { input, output } => HostStepView::OptimizeForSize {
                input: input@,
                output: output@,
            },
            HostStep::Snip { input, output } => HostStepView::Snip {
                input: input@,
                output: output@,
            },
            HostStep::EliminateDeadCode { input, output } => HostStepView::EliminateDeadCode {
                input: input@,
                output: output@,
            },
        }
    }
}

impl Clone for HostStep {
    fn clone(&self) -> (out: Self)
        ensures
            out@ == self@,
    {
        match self {
            HostStep::PrepareWorkspace { manifest } => HostStep::PrepareWorkspace {
                manifest: manifest.clone(),
            },
            HostStep::Compile { manifest, locked, target, profile } => HostStep::Compile {
                manifest: manifest.clone(),
                locked: *locked,
                target: target.clone(),
                profile: profile.clone(),
            },
            HostStep::KeepLockFile { from, to } => HostStep::KeepLockFile {
                from: from.clone(),
                to: to.clone(),
            },
            HostStep::OptimizeForSize { input, output } => HostStep::OptimizeForSize {
                input: input.clone(),
                output: output.clone(),
            },
            HostStep::Snip { input, output } => HostStep::Snip {
                input: input.clone(),
                output: output.clone(),
            },
            HostStep::EliminateDeadCode { input, output } => HostStep::EliminateDeadCode {
                input: input.clone(),
                output: output.clone(),
            },
        }
    }
}

/// What a list of steps denotes.
pub open spec fn host_steps_view(steps: Seq<HostStep>) -> Seq<HostStepView> {
    steps.map_values(|s: HostStep| s@)
}

/// The file `name` directly in `folder`.
pub open spec fn file_in(folder: Folder, name: Seq<char>) -> HostPathView {
    HostPathView { folder, parts: seq![name] }
}

/// The binary that the compiler leaves for `wasm_file`.
pub open spec fn compiled_binary(wasm_file: Seq<char>) -> HostPathView {
    HostPathView {
        folder: Folder::Source,
        parts: seq!["target"@, "wasm32-unknown-unknown"@, "release"@, wasm_file],
    }
}

/// The compilation of the package: for `wasm32-unknown-unknown`, with the
/// profile `release`.
pub open spec fn host_compilation(locked: bool) -> HostStepView {
    HostStepView::Compile {
        manifest: file_in(Folder::Source, "Cargo.toml"@),
        locked,
        target: "wasm32-unknown-unknown"@,
        profile: "release"@,
    }
}

/// The steps that build a contract into `wasm_file` on this machine.
///
/// The workspace of the package is prepared and the package is compiled; with
/// `use_lock_file`, the lock file is copied to the artifact; then the binary
/// is optimised for size, formatting and panicking code is snipped, and dead
/// code is eliminated, which leaves the artifact in the destination folder.
pub open spec fn host_pipeline(use_lock_file: bool, wasm_file: Seq<char>) -> Seq<HostStepView> {
    let compile = seq![
        HostStepView::PrepareWorkspace { manifest: file_in(Folder::Source, "Cargo.toml"@) },
        host_compilation(use_lock_file),
    ];
    let keep = if use_lock_file {
        seq![
            HostStepView::KeepLockFile {
                from: file_in(Folder::Source, "Cargo.lock"@),
                to: file_in(Folder::Destination, "Cargo.lock"@),
            },
        ]
    } else {
        Seq::empty()
    };
    let finish = seq![
        HostStepView::OptimizeForSize {
            input: compiled_binary(wasm_file),
            output: file_in(Folder::Scratch, "temp.wasm"@),
        },
        HostStepView::Snip {
            input: file_in(Folder::Scratch, "temp.wasm"@),
            output: file_in(Folder::Scratch, "temp2.wasm"@),
        },
        HostStepView::EliminateDeadCode {
            input: file_in(Folder::Scratch, "temp2.wasm"@),
            output: file_in(Folder::Destination, wasm_file),
        },
    ];
    compile + keep + finish
}

fn host_file(folder: Folder, name: &str) -> (out: HostPath)
    ensures
        out@ == file_in(folder, name@),
{
    let parts = vec![name.to_owned()];
    assert(texts(parts@) =~= seq![name@]);
    HostPath { folder, parts }
}

/// Plans the build of a contract into `wasm_file` on this machine (see
/// [`host_pipeline`]). The lock file is honoured, and kept with the artifact,
/// where `locked` asks for it and `lock_file_exists` says that the source code
/// has one.
pub fn build_contract(locked: bool, lock_file_exists: bool, wasm_file: &str) -> (out: Vec<HostStep>)
    ensures
        host_steps_view(out@) == host_pipeline(locked && lock_file_exists, wasm_file@),
{
    let use_lock_file = locked && lock_file_exists;
    let mut steps: Vec<HostStep> = Vec::new();
    steps.push(HostStep::PrepareWorkspace { manifest: host_file(Folder::Source, "Cargo.toml") });
    steps.push(
        HostStep::Compile {
            manifest: host_file(Folder::Source, "Cargo.toml"),
            locked: use_lock_file,
            target: "wasm32-unknown-unknown".to_owned(),
            profile: "release".to_owned(),
        },
    );
    if use_lock_file {
        steps.push(
            HostStep::KeepLockFile {
                from: host_file(Folder::Source, "Cargo.lock"),
                to: host_file(Folder::Destination, "Cargo.lock"),
            },
        );
    }
    let parts = vec![
        "target".to_owned(),
        "wasm32-unknown-unknown".to_owned(),
        "release".to_owned(),
        wasm_file.to_owned(),
    ];
    assert(texts(parts@) =~= seq!["target"@, "wasm32-unknown-unknown"@, "release"@, wasm_file@]);
    steps.push(
        HostStep::OptimizeForSize {
            input: HostPath { folder: Folder::Source, parts },
            output: host_file(Folder::Scratch, "temp.wasm"),
        },
    );
    steps.push(
        HostStep::Snip {
            input: host_file(Folder::Scratch, "temp.wasm"),
            output: host_file(Folder::Scratch, "temp2.wasm"),
        },
    );
    steps.push(
        HostStep::EliminateDeadCode {
            input: host_file(Folder::Scratch, "temp2.wasm"),
            output: host_file(Folder::Destination, wasm_file),
        },
    );
    assert(host_steps_view(steps@) =~= host_pipeline(use_lock_file, wasm_file@));
    steps
}

/// How a step of a build on this machine ended.
#[derive(Clone, Debug, PartialEq, Eq)]
pub enum HostOutcome {
    /// The step did its work.
    Done,
    /// The step failed; the text is the log of the compiler for the
    /// compilation, and says why for any other step.
    Failed(String),
}

/// What a [`HostOutcome`] denotes.
pub enum HostOutcomeView {
    Done,
    Failed(Seq<char>),
}

impl View for HostOutcome {
    type V = HostOutcomeView;

    open spec fn view(&self) -> HostOutcomeView {
        match *self {
            HostOutcome::Done => HostOutcomeView::Done,
            HostOutcome::Failed(d) => HostOutcomeView::Failed(d@),
        }
    }
}

/// The text of a failure of the kind `heading` with the reason `detail`.
pub open spec fn failure_text(heading: Seq<char>, detail: Seq<char>) -> Seq<char> {
    heading + ":\n\n"@ + detail + "\n"@
}

/// The failure of the build that the outcome of a step amounts to, if any.
///
/// A workspace that cannot be prepared fails the build with the reason. A
/// compilation that fails is reported with the log of the compiler. A lock
/// file that cannot be copied is no failure. Any other step that does not do
/// its work fails the build with the reason, under the heading of the tool.
pub open spec fn host_failure(step: HostStepView, outcome: HostOutcomeView) -> Option<ErrorView> {
    match (step, outcome) {
        (_, HostOutcomeView::Done) => None,
        (HostStepView::KeepLockFile { .. }, _) => None,
        (HostStepView::PrepareWorkspace { .. }, HostOutcomeView::Failed(d)) => Some(
            ErrorView::BuildFailure(
                failure_text(
                    "Error in preparing workspace according to the manifest file in source path"@,
                    d,
                ),
            ),
        ),
        (HostStepView::Compile { .. }, HostOutcomeView::Failed(d)) => Some(
            ErrorView::BuildFailureWithLogs(d),
        ),
        (HostStepView::Snip { .. }, HostOutcomeView::Failed(d)) => Some(
            ErrorView::BuildFailure(failure_text("Wasm snip error"@, d)),
        ),
        (_, HostOutcomeView::Failed(d)) => Some(
            ErrorView::BuildFailure(failure_text("Wasm optimization error"@, d)),
        ),
    }
}

fn failure_with(heading: &str, detail: &str) -> (out: Error)
    ensures
        out@ == ErrorView::BuildFailure(failure_text(heading@, detail@)),
{
    let mut text = heading.to_owned();
    text.append(":\n\n");
    text.append(detail);
    text.append("\n");
    Error::BuildFailure(text)
}

/// The failure of the build that the outcome of `step` amounts to, if any
/// (see [`host_failure`]).
pub fn failure_of(step: &HostStep, outcome: HostOutcome) -> (out: Option<Error>)
    ensures
        (match out {
            Some(e) => Some(e@),
            None => None,
        }) == host_failure(step@, outcome@),
{
    match outcome {
        HostOutcome::Done => None,
        HostOutcome::Failed(d) => match step {
            HostStep::KeepLockFile { .. } => None,
            HostStep::PrepareWorkspace { .. } => Some(
                failure_with(
                    "Error in preparing workspace according to the manifest file in source path",
                    d.as_str(),
                ),
            ),
            HostStep::Compile { .. } => Some(Error::BuildFailureWithLogs(d)),
            HostStep::Snip { .. } => Some(failure_with("Wasm snip error", d.as_str())),
            _ => Some(failure_with("Wasm optimization error", d.as_str())),
        },
    }
}

/// Generates a random name for a temporary working folder: five letters or
/// digits.
pub fn random_temp_dir_name() -> (name: String)
    ensures
        crate::docker::is_container_name(name@),
{
    random_container_name()
}

} // verus!
