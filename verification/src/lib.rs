//! Host-side planning for trusted devcontainer workspaces in per-client Lima VMs.
pub mod cli;
pub mod completion;
pub mod decoding;
pub mod error;
pub mod github;
pub mod images;
pub mod lima;
pub mod manpage;
pub mod model;
pub mod payload;
pub mod process;
pub mod report;
pub mod scripts;
pub mod text;
pub mod vscode;
pub mod workflow;
