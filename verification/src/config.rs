//! What a caller chooses for one build: where the source is, where the
//! artifact goes, and whether the build runs in a Docker container.

use vstd::prelude::*;
use crate::text::opt_view;

verus! {

/// Configuration to compile one smart contract.
#[derive(Debug, PartialEq, Eq)]
pub struct Config {
    /// Path to the source code folder.
    pub source_path: String,
    /// Path to the destination folder. `None` stands for the current folder.
    pub destination_path: Option<String>,
    /// Options for building the Rust code.
    pub build_options: BuildOptions,
    /// Whether, and how, Docker is used.
    pub docker_option: DockerOption,
}

/// Options for building the Rust code.
#[derive(Clone, Copy, Debug, PartialEq, Eq, Structural)]
pub struct BuildOptions {
    /// Honour `Cargo.lock` exactly, as `cargo build --locked` does.
    pub locked: bool,
}

/// Whether the contract is compiled in a Docker container.
#[derive(Debug, PartialEq, Eq)]
pub enum DockerOption {
    /// Compile the contract in a Docker container. This is the default.
    Docker(DockerConfig),
    /// Compile the contract on this machine, without Docker.
    Dockerless,
}

/// How Docker is used.
#[derive(Debug, PartialEq, Eq)]
pub struct DockerConfig {
    /// Tag of the Docker image. `None` stands for the default tag.
    pub tag: Option<String>,
}

/// What a [`DockerOption`] denotes.
pub enum DockerOptionView {
    Docker(Option<Seq<char>>),
    Dockerless,
}

/// What a [`Config`] denotes.
pub struct ConfigView {
    pub source_path: Seq<char>,
    pub destination_path: Option<Seq<char>>,
    pub locked: bool,
    pub docker_option: DockerOptionView,
}

impl View for DockerConfig {
    type V = Option<Seq<char>>;

    open spec fn view(&self) -> Option<Seq<char>> {
        opt_view(self.tag)
    }
}

impl View for DockerOption {
    type V = DockerOptionView;

    open spec fn view(&self) -> DockerOptionView {
        match *self {
            DockerOption::Docker(c) => DockerOptionView::Docker(c@),
            DockerOption::Dockerless => DockerOptionView::Dockerless,
        }
    }
}

impl View for Config {
    type V = ConfigView;

    open spec fn view(&self) -> ConfigView {
        ConfigView {
            source_path: self.source_path@,
            destination_path: opt_view(self.destination_path),
            locked: self.build_options.locked,
            docker_option: self.docker_option@,
        }
    }
}

impl Default for BuildOptions {
    fn default() -> (out: Self)
        ensures
            !out.locked,
    {
        BuildOptions { locked: false }
    }
}

impl Default for DockerConfig {
    fn default() -> (out: Self)
        ensures
            out@ is None,
    {
        DockerConfig { tag: None }
    }
}

impl Default for DockerOption {
    fn default() -> (out: Self)
        ensures
            out@ == DockerOptionView::Docker(None),
    {
        DockerOption::Docker(DockerConfig { tag: None })
    }
}

impl Default for Config {
    fn default() -> (out: Self)
        ensures
            out@ == (ConfigView {
                source_path: Seq::empty(),
                destination_path: None,
                locked: false,
                docker_option: DockerOptionView::Docker(None),
            }),
    {
        Config {
            source_path: String::new(),
            destination_path: None,
            build_options: BuildOptions { locked: false },
            docker_option: DockerOption::Docker(DockerConfig { tag: None }),
        }
    }
}

/// A copy of an optional string.
pub fn clone_opt(s: &Option<String>) -> (out: Option<String>)
    ensures
        opt_view(out) == opt_view(*s),
{
    match s {
        Some(s) => Some(s.clone()),
        None => None,
    }
}

impl Clone for DockerConfig {
    fn clone(&self) -> (out: Self)
        ensures
            out@ == self@,
    {
        DockerConfig { tag: clone_opt(&self.tag) }
    }
}

impl Clone for DockerOption {
    fn clone(&self) -> (out: Self)
        ensures
            out@ == self@,
    {
        match self {
            DockerOption::Docker(c) => DockerOption::Docker(c.clone()),
            DockerOption::Dockerless => DockerOption::Dockerless,
        }
    }
}

impl Clone for Config {
    fn clone(&self) -> (out: Self)
        ensures
            out@ == self@,
    {
        Config {
            source_path: self.source_path.clone(),
            destination_path: clone_opt(&self.destination_path),
            build_options: self.build_options,
            docker_option: self.docker_option.clone(),
        }
    }
}

} // verus!
