//! What a build needs from the manifest of a package: its name, from which
//! the name of the artifact follows, and the local paths of its dependencies,
//! which are followed from manifest to manifest.
//!
//! Manifests are read from the disk by the driver, which hands over what it
//! read as a [`Manifest`].

use vstd::prelude::*;
use crate::error::{text_result_view, Error, ErrorView};
use crate::text::{clone_texts, contains_text, opt_view, replace_all, replace_char, same_text, texts};

verus! {

/// One dependency of a package.
#[derive(Clone, Debug, PartialEq, Eq)]
pub struct Dependency {
    /// The name under which the package depends on it.
    pub name: String,
    /// The local path at which it is found, if the manifest gives one.
    pub path: Option<String>,
}

/// What a build reads in the manifest of a package.
#[derive(Clone, Debug, PartialEq, Eq)]
pub struct Manifest {
    /// The name of the package, if the manifest describes a package.
    pub package_name: Option<String>,
    /// The dependencies of the package, in the order of their names.
    pub dependencies: Vec<Dependency>,
}

/// What a [`Dependency`] denotes.
pub struct DependencyView {
    pub name: Seq<char>,
    pub path: Option<Seq<char>>,
}

/// What a [`Manifest`] denotes.
pub struct ManifestView {
    pub package_name: Option<Seq<char>>,
    pub dependencies: Seq<DependencyView>,
}

impl View for Dependency {
    type V = DependencyView;

    open spec fn view(&self) -> DependencyView {
        DependencyView { name: self.name@, path: opt_view(self.path) }
    }
}

impl View for Manifest {
    type V = ManifestView;

    open spec fn view(&self) -> ManifestView {
        ManifestView {
            package_name: opt_view(self.package_name),
            dependencies: self.dependencies@.map_values(|d: Dependency| d@),
        }
    }
}

/// What an optional manifest denotes.
pub open spec fn opt_manifest_view(m: Option<Manifest>) -> Option<ManifestView> {
    match m {
        Some(m) => Some(m@),
        None => None,
    }
}

/// The local paths that the dependencies of a manifest name, in the order of
/// the dependencies.
pub open spec fn local_paths(dependencies: Seq<DependencyView>) -> Seq<Seq<char>> {
    dependencies.filter_map(|d: DependencyView| d.path)
}

/// The name of the package that a manifest describes, if it describes one.
pub open spec fn package_name_in(manifest: Option<ManifestView>) -> Result<Seq<char>, ErrorView> {
    match manifest {
        Some(ManifestView { package_name: Some(name), .. }) => Ok(name),
        _ => Err(ErrorView::ManifestFailure),
    }
}

/// Returns the name of the package that `manifest` describes. `None` stands
/// for a manifest that is missing or cannot be parsed. Without a manifest, and
/// with one that describes no package, there is no name.
pub fn package_name(manifest: &Option<Manifest>) -> (out: Result<String, Error>)
    ensures
        text_result_view(out) == package_name_in(opt_manifest_view(*manifest)),
{
    match manifest {
        Some(m) => match &m.package_name {
            Some(name) => Ok(name.clone()),
            None => Err(Error::ManifestFailure),
        },
        None => Err(Error::ManifestFailure),
    }
}

/// The local paths in a parsed manifest (see [`local_paths`]).
pub fn paths_in(manifest: &Manifest) -> (out: Vec<String>)
    ensures
        texts(out@) == local_paths(manifest@.dependencies),
{
    let ghost all = manifest@.dependencies;
    let ghost f = |d: DependencyView| d.path;
    let mut out: Vec<String> = Vec::new();
    let mut i: usize = 0;
    assert(texts(out@) =~= all.take(0).filter_map(f));
    while i < manifest.dependencies.len()
        invariant
            i <= manifest.dependencies.len(),
            all == manifest@.dependencies,
            f == |d: DependencyView| d.path,
            texts(out@) == all.take(i as int).filter_map(f),
        decreases manifest.dependencies.len() - i,
    {
        proof {
            all.lemma_filter_map_take_succ(f, i as int);
        }
        let ghost before = texts(out@);
        match &manifest.dependencies[i].path {
            Some(path) => {
                let path = path.clone();
                out.push(path);
                assert(texts(out@) =~= before + seq![path@]);
            },
            None => {},
        }
        i += 1;
    }
    assert(all.take(all.len() as int) =~= all);
    out
}

/// The name of the artifact of the package `package_name`: the name with the
/// extension `.wasm`, and with `_` in place of every `-`.
pub open spec fn artifact_name(package_name: Seq<char>) -> Seq<char> {
    replace_all(package_name + ".wasm"@, '-', '_')
}

/// The file name of the artifact of the package `package_name`.
pub fn wasm_file_name(package_name: &str) -> (out: String)
    ensures
        out@ == artifact_name(package_name@),
{
    let mut name = package_name.to_owned();
    name.append(".wasm");
    replace_char(name.as_str(), '-', '_')
}

/// The name of an artifact is the name of its package, character by character
/// but for `_` in place of `-`, followed by `.wasm`. So it holds no `-`, and a
/// space only where the name of the package has one.
pub proof fn lemma_artifact_name(package_name: Seq<char>)
    ensures
        artifact_name(package_name) == replace_all(package_name, '-', '_') + ".wasm"@,
        artifact_name(package_name).len() == package_name.len() + 5,
        !artifact_name(package_name).contains('-'),
        forall|i: int|
            0 <= i < artifact_name(package_name).len() && #[trigger] artifact_name(
                package_name,
            )[i] == ' ' ==> i < package_name.len() && package_name[i] == ' ',
        !package_name.contains(' ') ==> !artifact_name(package_name).contains(' '),
{
    reveal_strlit(".wasm");
    let full = package_name + ".wasm"@;
    let name = artifact_name(package_name);
    assert(name =~= replace_all(package_name, '-', '_') + ".wasm"@);
    assert forall|i: int| 0 <= i < name.len() implies name[i] != '-' by {
        assert(name[i] == if full[i] == '-' { '_' } else { full[i] });
    }
    assert forall|i: int| 0 <= i < name.len() && name[i] == ' ' implies i < package_name.len()
        && package_name[i] == ' ' by {
        assert(name[i] == if full[i] == '-' { '_' } else { full[i] });
    }
}

/// Decides whether a directory can be used. `canonical` is the absolute path
/// of the directory, or `None` where it has none; `writable` says whether the
/// directory can be written to. The absolute path is returned if and only if
/// there is one and it is writable.
pub fn get_absolute_path(canonical: Option<String>, writable: bool) -> (out: Result<String, Error>)
    ensures
        text_result_view(out) == (match canonical {
            Some(path) if writable => Ok::<Seq<char>, ErrorView>(path@),
            _ => Err(ErrorView::InvalidDependencyPath),
        }),
{
    match canonical {
        Some(path) => if writable {
            Ok(path)
        } else {
            Err(Error::InvalidDependencyPath)
        },
        None => Err(Error::InvalidDependencyPath),
    }
}

/// What the resolver of dependencies waits for.
#[derive(Clone, Copy, Debug, PartialEq, Eq, Structural)]
pub enum ResolverStage {
    /// The manifest of a directory.
    ReadingManifest,
    /// The directory that a local path names as it stands.
    ResolvingAsGiven,
    /// The directory that a local path names from the directory of the
    /// manifest that holds it.
    ResolvingRelative,
    /// Nothing: the resolution has ended.
    Finished,
}

/// A manifest whose local paths are being followed.
pub struct Frame {
    dir: String,
    paths: Vec<String>,
    next: usize,
}

/// What a [`Frame`] denotes: the directory of the manifest, and the local
/// paths of the manifest that are still to follow, in their order.
pub struct FrameView {
    pub dir: Seq<char>,
    pub pending: Seq<Seq<char>>,
}

impl View for Frame {
    type V = FrameView;

    closed spec fn view(&self) -> FrameView {
        FrameView {
            dir: self.dir@,
            pending: if self.next <= self.paths@.len() {
                texts(self.paths@).skip(self.next as int)
            } else {
                Seq::empty()
            },
        }
    }
}

/// Finds the local dependencies of a package, those of its dependencies
/// included, one question at a time: it asks for the manifest of a directory
/// or for the directory that a local path names, and takes the answer.
pub struct Resolver {
    root: String,
    found: Vec<String>,
    ignored: Vec<String>,
    stack: Vec<Frame>,
    stage: ResolverStage,
    current: String,
    failure: Option<Error>,
}

/// What a [`Resolver`] denotes.
pub struct ResolverView {
    /// The absolute path of the package whose dependencies are sought.
    pub root: Seq<char>,
    /// The dependencies found so far, in the order in which they were found.
    pub found: Seq<Seq<char>>,
    /// What was passed over so far (see [`Resolution`]).
    pub ignored: Seq<Seq<char>>,
    /// The manifests whose local paths are being followed, innermost last.
    pub stack: Seq<FrameView>,
    /// What the resolver waits for.
    pub stage: ResolverStage,
    /// The directory whose manifest is awaited, or the local path whose
    /// directory is awaited.
    pub current: Seq<char>,
    /// Why the resolution failed, if it did.
    pub failure: Option<ErrorView>,
}

/// What a resolution found, and what it passed over.
#[derive(Clone, Debug, PartialEq, Eq)]
pub struct Resolution {
    /// The absolute paths of the local dependencies, without duplicates and
    /// without the package itself, in the order in which they were found.
    pub resolved: Vec<String>,
    /// What was passed over in the manifests of dependencies: each
    /// dependency whose manifest could not be read, by its absolute path; and
    /// each local path that names no directory, followed by the local paths
    /// of the same manifest that were given up with it.
    pub ignored: Vec<String>,
}

/// What a [`Resolution`] denotes.
pub struct ResolutionView {
    pub resolved: Seq<Seq<char>>,
    pub ignored: Seq<Seq<char>>,
}

impl View for Resolution {
    type V = ResolutionView;

    open spec fn view(&self) -> ResolutionView {
        ResolutionView { resolved: texts(self.resolved@), ignored: texts(self.ignored@) }
    }
}

/// What a resolver asks of its driver.
#[derive(Debug, PartialEq, Eq)]
pub enum ResolverAction {
    /// Read the manifest file in the directory `dir`.
    ReadManifest { dir: String },
    /// Find the absolute, writable directory that `path` names as it stands.
    ResolveAsGiven { path: String },
    /// Find the absolute, writable directory that `path` names from `base`.
    ResolveRelative { base: String, path: String },
    /// Nothing more: these are the dependencies, or this is why there are none.
    Finished(Result<Resolution, Error>),
}

/// What a [`ResolverAction`] denotes.
pub enum ResolverActionView {
    ReadManifest { dir: Seq<char> },
    ResolveAsGiven { path: Seq<char> },
    ResolveRelative { base: Seq<char>, path: Seq<char> },
    Finished(Result<ResolutionView, ErrorView>),
}

impl View for ResolverAction {
    type V = ResolverActionView;

    open spec fn view(&self) -> ResolverActionView {
        match *self {
            ResolverAction::ReadManifest { dir } => ResolverActionView::ReadManifest { dir: dir@ },
            ResolverAction::ResolveAsGiven { path } => ResolverActionView::ResolveAsGiven {
                path: path@,
            },
            ResolverAction::ResolveRelative { base, path } => ResolverActionView::ResolveRelative {
                base: base@,
                path: path@,
            },
            ResolverAction::Finished(Ok(resolution)) => ResolverActionView::Finished(
                Ok(resolution@),
            ),
            ResolverAction::Finished(Err(e)) => ResolverActionView::Finished(Err(e@)),
        }
    }
}

/// What the driver of a resolver answers.
#[derive(Debug, PartialEq, Eq)]
pub enum ResolverEvent {
    /// The manifest that was asked for, or `None` where there is none that
    /// can be parsed.
    Manifest(Option<Manifest>),
    /// The directory that was asked for, or `None` where the path names no
    /// absolute, writable directory.
    Path(Option<String>),
}

/// What a [`ResolverEvent`] denotes.
pub enum ResolverEventView {
    Manifest(Option<ManifestView>),
    Path(Option<Seq<char>>),
}

impl View for ResolverEvent {
    type V = ResolverEventView;

    open spec fn view(&self) -> ResolverEventView {
        match *self {
            ResolverEvent::Manifest(m) => ResolverEventView::Manifest(opt_manifest_view(m)),
            ResolverEvent::Path(p) => ResolverEventView::Path(opt_view(p)),
        }
    }
}

impl ResolverView {
    /// The state in which the resolution of the dependencies of `root` begins:
    /// it waits for the manifest of `root`.
    pub open spec fn initial(root: Seq<char>) -> ResolverView {
        ResolverView {
            root,
            found: Seq::empty(),
            ignored: Seq::empty(),
            stack: Seq::empty(),
            stage: ResolverStage::ReadingManifest,
            current: root,
            failure: None,
        }
    }

    /// What holds of every state that a resolution reaches: no dependency
    /// was found twice, the package is not among its own dependencies, and a
    /// local path is only followed for a manifest.
    pub open spec fn wf(self) -> bool {
        &&& self.found.no_duplicates()
        &&& !self.found.contains(self.root)
        &&& (self.stage == ResolverStage::ResolvingAsGiven || self.stage
            == ResolverStage::ResolvingRelative) ==> self.stack.len() > 0
        &&& self.failure is Some ==> self.stage == ResolverStage::Finished
    }

    /// What the resolver asks in this state.
    pub open spec fn pending(self) -> ResolverActionView {
        match self.stage {
            ResolverStage::ReadingManifest => ResolverActionView::ReadManifest {
                dir: self.current,
            },
            ResolverStage::ResolvingAsGiven => ResolverActionView::ResolveAsGiven {
                path: self.current,
            },
            ResolverStage::ResolvingRelative => ResolverActionView::ResolveRelative {
                base: if self.stack.len() > 0 {
                    self.stack.last().dir
                } else {
                    self.root
                },
                path: self.current,
            },
            ResolverStage::Finished => ResolverActionView::Finished(
                match self.failure {
                    Some(e) => Err(e),
                    None => Ok(ResolutionView { resolved: self.found, ignored: self.ignored }),
                },
            ),
        }
    }

    /// The resolution ends with the failure `e`.
    pub open spec fn fail(self, e: ErrorView) -> ResolverView {
        ResolverView { stage: ResolverStage::Finished, failure: Some(e), ..self }
    }

    /// Goes on to the next local path: that of the innermost manifest that has
    /// one left. Manifests without one are done with. Where none is left at
    /// all, the resolution ends.
    pub open spec fn settle(self) -> ResolverView
        decreases self.stack.len(),
    {
        if self.stack.len() == 0 {
            ResolverView { stage: ResolverStage::Finished, ..self }
        } else if self.stack.last().pending.len() == 0 {
            (ResolverView { stack: self.stack.drop_last(), ..self }).settle()
        } else {
            let top = self.stack.last();
            ResolverView {
                stack: self.stack.drop_last().push(
                    FrameView { dir: top.dir, pending: top.pending.drop_first() },
                ),
                stage: ResolverStage::ResolvingAsGiven,
                current: top.pending.first(),
                ..self
            }
        }
    }

    /// The manifest of the dependency in hand cannot be read: the dependency
    /// is put on record as passed over.
    pub open spec fn without_manifest(self) -> ResolverView {
        ResolverView { ignored: self.ignored.push(self.current), ..self }
    }

    /// The local path in hand names no directory, in the manifest of a
    /// dependency: the path is put on record as passed over, together with the
    /// local paths that were still to follow in that manifest, and the
    /// manifest is done with.
    pub open spec fn without_directory(self) -> ResolverView {
        ResolverView {
            stack: self.stack.drop_last(),
            ignored: self.ignored.push(self.current) + (if self.stack.len() > 0 {
                self.stack.last().pending
            } else {
                Seq::empty()
            }),
            ..self
        }
    }

    /// Takes the directory `dir` that a local path names. A directory that is
    /// the package itself or was found before is not visited again. A new one
    /// joins the dependencies, and its manifest is asked for.
    pub open spec fn visit(self, dir: Seq<char>) -> ResolverView {
        if dir == self.root || self.found.contains(dir) {
            self.settle()
        } else {
            ResolverView {
                found: self.found.push(dir),
                stage: ResolverStage::ReadingManifest,
                current: dir,
                ..self
            }
        }
    }

    /// The state after the answer `event`.
    ///
    /// Without the manifest of the package itself the resolution fails. A
    /// local path of the package that names no directory, neither as it
    /// stands nor from the directory of the package, makes it fail as well.
    /// In the manifest of a dependency neither is held against the package:
    /// what was left to follow in that manifest is given up, the dependency
    /// itself stays, and what was passed over is kept on record. An answer to
    /// a question that was not asked changes nothing.
    pub open spec fn step(self, event: ResolverEventView) -> ResolverView {
        match (self.stage, event) {
            (ResolverStage::ReadingManifest, ResolverEventView::Manifest(None)) => {
                if self.stack.len() == 0 {
                    self.fail(ErrorView::ManifestFailure)
                } else {
                    self.without_manifest().settle()
                }
            },
            (ResolverStage::ReadingManifest, ResolverEventView::Manifest(Some(m))) => {
                (ResolverView {
                    stack: self.stack.push(
                        FrameView { dir: self.current, pending: local_paths(m.dependencies) },
                    ),
                    ..self
                }).settle()
            },
            (ResolverStage::ResolvingAsGiven, ResolverEventView::Path(Some(dir))) => self.visit(dir),
            (ResolverStage::ResolvingAsGiven, ResolverEventView::Path(None)) => ResolverView {
                stage: ResolverStage::ResolvingRelative,
                ..self
            },
            (ResolverStage::ResolvingRelative, ResolverEventView::Path(Some(dir))) => self.visit(
                dir,
            ),
            (ResolverStage::ResolvingRelative, ResolverEventView::Path(None)) => {
                if self.stack.len() <= 1 {
                    self.fail(ErrorView::InvalidDependencyPath)
                } else {
                    self.without_directory().settle()
                }
            },
            _ => self,
        }
    }
}

impl View for Resolver {
    type V = ResolverView;

    closed spec fn view(&self) -> ResolverView {
        ResolverView {
            root: self.root@,
            found: texts(self.found@),
            ignored: texts(self.ignored@),
            stack: self.stack@.map_values(|f: Frame| f@),
            stage: self.stage,
            current: self.current@,
            failure: match self.failure {
                Some(e) => Some(e@),
                None => None,
            },
        }
    }
}

/// Begins to find the local dependencies of the package in the directory
/// `source_path`, which is an absolute path.
pub fn get_dependency_paths(source_path: &str) -> (out: Resolver)
    ensures
        out@ == ResolverView::initial(source_path@),
{
    let out = Resolver {
        root: source_path.to_owned(),
        found: Vec::new(),
        ignored: Vec::new(),
        stack: Vec::new(),
        stage: ResolverStage::ReadingManifest,
        current: source_path.to_owned(),
        failure: None,
    };
    assert(out@.found =~= Seq::empty());
    assert(out@.ignored =~= Seq::empty());
    assert(out@.stack =~= Seq::empty());
    out
}

impl Resolver {
    /// Whether the resolution has ended.
    pub fn is_finished(&self) -> (out: bool)
        ensures
            out == (self@.stage == ResolverStage::Finished),
    {
        self.stage == ResolverStage::Finished
    }

    /// What the resolver asks of its driver now.
    pub fn next_action(&self) -> (action: ResolverAction)
        ensures
            action@ == self@.pending(),
    {
        match self.stage {
            ResolverStage::ReadingManifest => ResolverAction::ReadManifest {
                dir: self.current.clone(),
            },
            ResolverStage::ResolvingAsGiven => ResolverAction::ResolveAsGiven {
                path: self.current.clone(),
            },
            ResolverStage::ResolvingRelative => {
                let n = self.stack.len();
                let base = if n > 0 {
                    self.stack[n - 1].dir.clone()
                } else {
                    self.root.clone()
                };
                ResolverAction::ResolveRelative { base, path: self.current.clone() }
            },
            ResolverStage::Finished => match &self.failure {
                Some(e) => ResolverAction::Finished(Err(e.clone())),
                None => ResolverAction::Finished(
                    Ok(
                        Resolution {
                            resolved: clone_texts(&self.found),
                            ignored: clone_texts(&self.ignored),
                        },
                    ),
                ),
            },
        }
    }

    fn settle(&mut self)
        ensures
            final(self)@ == old(self)@.settle(),
    {
        loop
            invariant
                self@.settle() == old(self)@.settle(),
            decreases self.stack.len(),
        {
            let ghost before = self@;
            if self.stack.len() == 0 {
                self.stage = ResolverStage::Finished;
                return ;
            }
            let mut top = self.stack.pop().unwrap();
            assert(self@.stack =~= before.stack.drop_last());
            assert(before.stack.last() == top@);
            if top.next < top.paths.len() {
                self.current = top.paths[top.next].clone();
                top.next = top.next + 1;
                proof {
                    let pending = before.stack.last().pending;
                    assert(pending.first() == self.current@);
                    assert(top@.pending =~= pending.drop_first());
                }
                self.stack.push(top);
                self.stage = ResolverStage::ResolvingAsGiven;
                assert(self@.stack =~= before.stack.drop_last().push(top@));
                return ;
            }
        }
    }

    fn visit(&mut self, dir: String)
        ensures
            final(self)@ == old(self)@.visit(dir@),
    {
        if same_text(dir.as_str(), self.root.as_str()) || contains_text(&self.found, dir.as_str()) {
            self.settle();
        } else {
            self.current = dir.clone();
            self.found.push(dir);
            self.stage = ResolverStage::ReadingManifest;
            assert(self@.found =~= old(self)@.found.push(dir@));
        }
    }

    fn fail(&mut self, e: Error)
        ensures
            final(self)@ == old(self)@.fail(e@),
    {
        self.stage = ResolverStage::Finished;
        self.failure = Some(e);
    }

    /// Takes the answer `event` to what was asked last, and returns what is
    /// asked next (see [`ResolverView::step`]).
    pub fn step(&mut self, event: ResolverEvent) -> (action: ResolverAction)
        ensures
            final(self)@ == old(self)@.step(event@),
            action@ == final(self)@.pending(),
    {
        match (self.stage, event) {
            (ResolverStage::ReadingManifest, ResolverEvent::Manifest(None)) => {
                if self.stack.len() == 0 {
                    self.fail(Error::ManifestFailure);
                } else {
                    let ghost before = self@;
                    self.ignored.push(self.current.clone());
                    assert(self@.ignored =~= before.without_manifest().ignored);
                    self.settle();
                }
            },
            (ResolverStage::ReadingManifest, ResolverEvent::Manifest(Some(m))) => {
                let ghost before = self@;
                let frame = Frame { dir: self.current.clone(), paths: paths_in(&m), next: 0 };
                assert(frame@.pending =~= local_paths(m@.dependencies));
                self.stack.push(frame);
                assert(self@.stack =~= before.stack.push(frame@));
                self.settle();
            },
            (ResolverStage::ResolvingAsGiven, ResolverEvent::Path(Some(dir))) => {
                self.visit(dir);
            },
            (ResolverStage::ResolvingAsGiven, ResolverEvent::Path(None)) => {
                self.stage = ResolverStage::ResolvingRelative;
            },
            (ResolverStage::ResolvingRelative, ResolverEvent::Path(Some(dir))) => {
                self.visit(dir);
            },
            (ResolverStage::ResolvingRelative, ResolverEvent::Path(None)) => {
                if self.stack.len() <= 1 {
                    self.fail(Error::InvalidDependencyPath);
                } else {
                    let ghost before = self@;
                    let top = self.stack.pop().unwrap();
                    assert(self@.stack =~= before.stack.drop_last());
                    assert(before.stack.last() == top@);
                    self.ignored.push(self.current.clone());
                    assert(self@.ignored =~= before.ignored.push(before.current));
                    let start = if top.next <= top.paths.len() {
                        top.next
                    } else {
                        top.paths.len()
                    };
                    let ghost rest = before.stack.drop_last();
                    let ghost passed = before.ignored.push(before.current);
                    let mut i = start;
                    assert(self@.ignored =~= passed + texts(top.paths@).subrange(
                        start as int,
                        i as int,
                    ));
                    while i < top.paths.len()
                        invariant
                            start <= i <= top.paths.len(),
                            self@ == (ResolverView {
                                ignored: passed + texts(top.paths@).subrange(
                                    start as int,
                                    i as int,
                                ),
                                stack: rest,
                                ..before
                            }),
                        decreases top.paths.len() - i,
                    {
                        let ghost ignored = self@.ignored;
                        self.ignored.push(top.paths[i].clone());
                        assert(self@.ignored =~= ignored.push(top.paths@[i as int]@));
                        assert(self@.ignored =~= passed + texts(top.paths@).subrange(
                            start as int,
                            i + 1,
                        ));
                        i += 1;
                    }
                    assert(texts(top.paths@).subrange(start as int, i as int) =~= top@.pending);
                    self.settle();
                }
            },
            _ => {},
        }
        self.next_action()
    }
}

/// The number of local paths that are still to follow.
pub open spec fn backlog(stack: Seq<FrameView>) -> nat
    decreases stack.len(),
{
    if stack.len() == 0 {
        0
    } else {
        backlog(stack.drop_last()) + stack.last().pending.len()
    }
}

/// How far a resolution is from its end, given a set `universe` of directories
/// that holds every directory it can find. The three numbers are compared
/// from the left, the first that differs deciding. The first counts the
/// directories not yet found, and whether a manifest is awaited; the second
/// the local paths still to follow; the third what is left to try for the
/// local path in hand.
pub open spec fn rank(s: ResolverView, universe: Set<Seq<char>>) -> (nat, nat, nat) {
    (
        (2 * (universe.len() - s.found.len()) + (if s.stage == ResolverStage::ReadingManifest {
            1int
        } else {
            0int
        })) as nat,
        backlog(s.stack),
        match s.stage {
            ResolverStage::ResolvingAsGiven => 2,
            ResolverStage::ResolvingRelative => 1,
            _ => 0,
        },
    )
}

/// Whether the rank `new` is below the rank `old`. No infinite sequence of
/// ranks descends for ever in this order.
pub open spec fn below(new: (nat, nat, nat), old: (nat, nat, nat)) -> bool {
    new.0 < old.0 || (new.0 == old.0 && (new.1 < old.1 || (new.1 == old.1 && new.2 < old.2)))
}

/// Whether `event` answers what `s` asks.
pub open spec fn answers(s: ResolverView, event: ResolverEventView) -> bool {
    match (s.stage, event) {
        (ResolverStage::ReadingManifest, ResolverEventView::Manifest(_)) => true,
        (ResolverStage::ResolvingAsGiven, ResolverEventView::Path(_)) => true,
        (ResolverStage::ResolvingRelative, ResolverEventView::Path(_)) => true,
        _ => false,
    }
}

/// Going on to the next local path keeps what was found, takes one path from
/// the backlog, and ends the resolution only where the backlog is empty.
pub proof fn lemma_settle(s: ResolverView)
    ensures
        s.settle().root == s.root,
        s.settle().found == s.found,
        s.settle().ignored == s.ignored,
        s.settle().failure == s.failure,
        s.settle().stage == ResolverStage::ResolvingAsGiven || s.settle().stage
            == ResolverStage::Finished,
        s.settle().stage == ResolverStage::ResolvingAsGiven ==> s.settle().stack.len() > 0
            && backlog(s.settle().stack) + 1 == backlog(s.stack),
        s.settle().stage == ResolverStage::Finished ==> backlog(s.stack) == 0 && s.settle().stack
            == Seq::<FrameView>::empty(),
    decreases s.stack.len(),
{
    if s.stack.len() == 0 {
        assert(s.stack =~= Seq::<FrameView>::empty());
    } else if s.stack.last().pending.len() == 0 {
        lemma_settle(ResolverView { stack: s.stack.drop_last(), ..s });
    } else {
        let top = s.stack.last();
        let next = s.stack.drop_last().push(
            FrameView { dir: top.dir, pending: top.pending.drop_first() },
        );
        assert(next.drop_last() =~= s.stack.drop_last());
    }
}

/// The first state of a resolution is well formed.
pub proof fn lemma_initial_is_well_formed(root: Seq<char>)
    ensures
        ResolverView::initial(root).wf(),
{
}

/// Every answer leaves a well-formed state well formed.
pub proof fn lemma_step_preserves_wf(s: ResolverView, event: ResolverEventView)
    requires
        s.wf(),
    ensures
        s.step(event).wf(),
{
    lemma_settle(s);
    lemma_settle(s.without_manifest());
    lemma_settle(s.without_directory());
    match event {
        ResolverEventView::Manifest(Some(m)) => {
            lemma_settle(
                ResolverView {
                    stack: s.stack.push(
                        FrameView { dir: s.current, pending: local_paths(m.dependencies) },
                    ),
                    ..s
                },
            );
        },
        ResolverEventView::Path(Some(dir)) => {
            if !(dir == s.root || s.found.contains(dir)) {
                lemma_push_keeps_distinct(s.found, dir);
            }
        },
        _ => {},
    }
}

/// A sequence without duplicates stays so when it takes in an item that it
/// does not hold.
pub proof fn lemma_push_keeps_distinct(s: Seq<Seq<char>>, x: Seq<char>)
    requires
        s.no_duplicates(),
        !s.contains(x),
    ensures
        s.push(x).no_duplicates(),
        forall|y: Seq<char>| s.push(x).contains(y) <==> (y == x || s.contains(y)),
{
    let t = s.push(x);
    assert forall|i: int, j: int| 0 <= i < t.len() && 0 <= j < t.len() && i != j implies t[i]
        != t[j] by {
        if i < s.len() {
            assert(s.contains(s[i]));
        }
        if j < s.len() {
            assert(s.contains(s[j]));
        }
    }
    assert forall|y: Seq<char>| t.contains(y) <==> (y == x || s.contains(y)) by {
        if t.contains(y) {
            let i = choose|i: int| 0 <= i < t.len() && t[i] == y;
            if i < s.len() {
                assert(s[i] == y);
            }
        }
        if y == x {
            assert(t[s.len() as int] == x);
        }
        if s.contains(y) {
            let i = choose|i: int| 0 <= i < s.len() && s[i] == y;
            assert(t[i] == y);
        }
    }
}

/// No directory is visited twice. An answer either leaves the dependencies as
/// they are, or adds one directory that is neither the package itself nor
/// among the dependencies found before; and the manifest of a directory is
/// asked for in that case alone, and for that directory.
pub proof fn lemma_each_directory_visited_once(s: ResolverView, event: ResolverEventView)
    requires
        s.wf(),
    ensures
        s.step(event).found == s.found || {
            &&& s.step(event).found == s.found.push(s.step(event).current)
            &&& s.step(event).current != s.root
            &&& !s.found.contains(s.step(event).current)
            &&& s.step(event).pending() == (ResolverActionView::ReadManifest {
                dir: s.step(event).current,
            })
        },
        s.step(event).pending() is ReadManifest && answers(s, event) ==> s.step(event).found
            != s.found,
{
    lemma_settle(s);
    lemma_settle(s.without_manifest());
    lemma_settle(s.without_directory());
    match event {
        ResolverEventView::Manifest(Some(m)) => {
            lemma_settle(
                ResolverView {
                    stack: s.stack.push(
                        FrameView { dir: s.current, pending: local_paths(m.dependencies) },
                    ),
                    ..s
                },
            );
        },
        ResolverEventView::Path(Some(dir)) => {
            if !(dir == s.root || s.found.contains(dir)) {
                assert(s.found.push(dir).len() != s.found.len());
            }
        },
        _ => {},
    }
}

/// Dependencies without duplicates, all from a finite set, are no more than
/// the set holds.
pub proof fn lemma_found_is_bounded(found: Seq<Seq<char>>, universe: Set<Seq<char>>)
    requires
        found.no_duplicates(),
        universe.finite(),
        forall|i: int| 0 <= i < found.len() ==> universe.contains(#[trigger] found[i]),
    ensures
        found.len() <= universe.len(),
{
    found.unique_seq_to_set();
    assert forall|x: Seq<char>| found.to_set().contains(x) implies universe.contains(x) by {
        let i = choose|i: int| 0 <= i < found.len() && found[i] == x;
        assert(universe.contains(found[i]));
    }
    vstd::set_lib::lemma_len_subset(found.to_set(), universe);
}

/// The resolution ends, whatever the graph of the dependencies, cycles
/// included: where all directories that local paths can name lie in a finite
/// set, every answer to what was asked brings the resolution closer to its
/// end.
pub proof fn lemma_every_answer_brings_the_end_closer(
    s: ResolverView,
    event: ResolverEventView,
    universe: Set<Seq<char>>,
)
    requires
        s.wf(),
        answers(s, event),
        universe.finite(),
        forall|i: int| 0 <= i < s.found.len() ==> universe.contains(#[trigger] s.found[i]),
        event matches ResolverEventView::Path(Some(dir)) ==> universe.contains(dir),
    ensures
        below(rank(s.step(event), universe), rank(s, universe)),
        forall|i: int|
            0 <= i < s.step(event).found.len() ==> universe.contains(
                #[trigger] s.step(event).found[i],
            ),
{
    lemma_found_is_bounded(s.found, universe);
    lemma_step_preserves_wf(s, event);
    lemma_settle(s);
    lemma_settle(s.without_manifest());
    let dropped = s.without_directory();
    lemma_settle(dropped);
    match event {
        ResolverEventView::Manifest(Some(m)) => {
            let pushed = ResolverView {
                stack: s.stack.push(
                    FrameView { dir: s.current, pending: local_paths(m.dependencies) },
                ),
                ..s
            };
            lemma_settle(pushed);
        },
        ResolverEventView::Path(Some(dir)) => {
            if !(dir == s.root || s.found.contains(dir)) {
                let t = s.step(event);
                assert(t.found == s.found.push(dir));
                assert forall|i: int| 0 <= i < t.found.len() implies universe.contains(
                    #[trigger] t.found[i],
                ) by {
                    if i < s.found.len() {
                        assert(t.found[i] == s.found[i]);
                    }
                }
                lemma_found_is_bounded(t.found, universe);
            }
        },
        ResolverEventView::Path(None) => {
            if s.stage == ResolverStage::ResolvingRelative && s.stack.len() > 1 {
                assert(backlog(dropped.stack) <= backlog(s.stack));
            }
        },
        _ => {},
    }
}

/// The state of a resolution after `count` answers of `world`, which stands
/// for the file system: it gives the answer to every question that a
/// resolver can ask.
pub open spec fn after(
    s: ResolverView,
    world: spec_fn(ResolverActionView) -> ResolverEventView,
    count: nat,
) -> ResolverView
    decreases count,
{
    if count == 0 {
        s
    } else {
        after(s.step(world(s.pending())), world, (count - 1) as nat)
    }
}

/// Whether `world` answers each question with an answer of its kind, and
/// names no directory outside of `universe`: it answers the question for a
/// manifest with a manifest or with none, and the question for a directory
/// with a directory of `universe` or with none. What it makes of the end of a
/// resolution, which is no question, is left open.
pub open spec fn is_world(
    world: spec_fn(ResolverActionView) -> ResolverEventView,
    universe: Set<Seq<char>>,
) -> bool {
    forall|action: ResolverActionView|
        #![trigger world(action)]
        match action {
            ResolverActionView::ReadManifest { .. } => world(action) is Manifest,
            ResolverActionView::ResolveAsGiven { .. }
            | ResolverActionView::ResolveRelative { .. } => match world(action) {
                ResolverEventView::Path(Some(dir)) => universe.contains(dir),
                ResolverEventView::Path(None) => true,
                ResolverEventView::Manifest(_) => false,
            },
            ResolverActionView::Finished(_) => true,
        }
}

/// There are worlds. The one in which no manifest can be read and no path
/// names a directory is a world for every set of directories, and in it the
/// resolution for any package ends at its first answer, with a manifest
/// failure.
pub proof fn lemma_the_empty_world_is_a_world(root: Seq<char>, universe: Set<Seq<char>>)
    ensures
        is_world(empty_world(), universe),
        after(ResolverView::initial(root), empty_world(), 1).pending()
            == ResolverActionView::Finished(Err(ErrorView::ManifestFailure)),
{
    let world = empty_world();
    let first = ResolverView::initial(root);
    assert(world(first.pending()) == ResolverEventView::Manifest(None));
    assert(after(first.step(world(first.pending())), world, 0) == first.step(
        world(first.pending()),
    ));
}

/// The world in which no manifest can be read and no path names a directory.
pub open spec fn empty_world() -> spec_fn(ResolverActionView) -> ResolverEventView {
    |action: ResolverActionView|
        if action is ReadManifest {
            ResolverEventView::Manifest(None)
        } else {
            ResolverEventView::Path(None)
        }
}

/// Every resolution ends. Whatever the manifests hold and whatever the local
/// paths name, cycles included, as long as the directories that can be named
/// are finitely many: after some number of answers, which is returned, the
/// resolution has ended.
pub proof fn lemma_resolution_ends(
    s: ResolverView,
    world: spec_fn(ResolverActionView) -> ResolverEventView,
    universe: Set<Seq<char>>,
) -> (count: nat)
    requires
        s.wf(),
        universe.finite(),
        is_world(world, universe),
        forall|i: int| 0 <= i < s.found.len() ==> universe.contains(#[trigger] s.found[i]),
    ensures
        after(s, world, count).stage == ResolverStage::Finished,
        after(s, world, count).wf(),
    decreases rank(s, universe).0, rank(s, universe).1, rank(s, universe).2,
{
    if s.stage == ResolverStage::Finished {
        0
    } else {
        let event = world(s.pending());
        assert(answers(s, event));
        lemma_every_answer_brings_the_end_closer(s, event, universe);
        lemma_step_preserves_wf(s, event);
        let rest = lemma_resolution_ends(s.step(event), world, universe);
        rest + 1
    }
}

} // verus!
