//! The decisions behind the `cim` command line: repairing a workspace's Python
//! virtual environment, updating the installed binary, bootstrapping a target
//! and locking the shared mirror. Everything here works on plain values; a thin
//! application performs the file, network and terminal work that it asks for.

pub mod archive;
pub mod bootstrap;
pub mod bootstrap_config;
pub mod message;
pub mod overrun;
pub mod path;
pub mod phases;
pub mod picker;
pub mod repair;
pub mod repair_execution;
pub mod repair_plan;
pub mod text;
pub mod update;
pub mod utils_cmd;
pub mod venv_lock;
