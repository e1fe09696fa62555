//! Project-local Python virtual-environment resolution.
//!
//! The library holds the decision logic of a command-line dispatcher that
//! augments `python`/`pip` invocations: it finds a project marker file by
//! walking up from the working directory, resolves the project's virtual
//! environment, builds the child process environment, and picks the
//! executable path. All filesystem probes and the actual process spawn are
//! performed by the surrounding binary, which hands this library plain
//! values and receives plain values back.

mod args;
mod env;
mod marker;
mod path;
mod resolve;
mod text;

pub use args::{
    join_spaces, joined, mod_diagnostic, override_request_spec, pip_command_args,
    venv_create_override, venv_diagnostic,
};
pub use env::{build_env, lookup, overridden, Env};
pub use marker::{
    deepest_marked, find_python_mod_dir, lemma_locate_closest_marked,
    lemma_locate_depth_independent, lemma_locate_none, lemma_locate_same_directory,
    lemma_locate_sound, marker_file_name,
};
pub use path::{append_venv_bin_path, AbsPath, Platform};
pub use resolve::{
    command_path, override_file_name, resolve_venv, venv_cfg_file_name, venv_dir_name,
};
pub use text::{str_eq, trim_ascii};
