//! Building a smart contract into an optimised WebAssembly artifact: the
//! rules and state machines of the build, verified, for a driver that does the
//! input and output.

pub mod archive;
pub mod cargo;
pub mod config;
pub mod docker;
pub mod error;
pub mod execution;
pub mod manifests;
pub mod orchestrator;
pub mod paths;
pub mod processes;
pub mod text;

pub use config::{BuildOptions, Config, DockerConfig, DockerOption};
pub use orchestrator::build_target;
