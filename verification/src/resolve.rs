//! Virtual-environment resolution for a discovered marker directory, and
//! the choice of the executable path for the delegated command.
//!
//! The caller reads the marker file, the optional override file and the
//! filesystem, and hands the results over as plain values; the decisions
//! are made here. An override names the environment directly and is
//! trusted as given; the conventional subdirectory counts only when it
//! holds the environment's configuration file.

use vstd::prelude::*;

use crate::path::{render_spec, AbsPath, Platform};
use crate::text::{trim_ascii, trim_spec};

verus! {

/// The name of the override file that records an explicit virtual
/// environment location beside the marker.
pub fn override_file_name() -> (r: String)
    ensures
        r@ == "py.venv"@,
{
    "py.venv".to_owned()
}

/// The name of the configuration file whose presence makes a directory a
/// usable virtual environment.
pub fn venv_cfg_file_name() -> (r: String)
    ensures
        r@ == "pyvenv.cfg"@,
{
    "pyvenv.cfg".to_owned()
}

/// The name of the virtual-environment directory asked for by the marker
/// file's contents: the contents trimmed, or `env` where that leaves
/// nothing.
pub open spec fn venv_name_spec(contents: Seq<char>) -> Seq<char> {
    if trim_spec(contents).len() == 0 {
        "env"@
    } else {
        trim_spec(contents)
    }
}

/// Reads the conventional virtual-environment directory name out of the
/// marker file's contents.
pub fn venv_dir_name(contents: &str) -> (r: String)
    ensures
        r@ == venv_name_spec(contents@),
{
    let t = trim_ascii(contents);
    if t.as_str().unicode_len() == 0 {
        "env".to_owned()
    } else {
        t
    }
}

/// The virtual environment a marker directory resolves to.
///
/// `override_dir` is the directory named by the override file, present only
/// where that file exists and its contents name an existing directory;
/// `name` is the conventional subdirectory name taken from the marker's
/// contents; `conventional_cfg_exists` says whether that subdirectory holds
/// the environment's configuration file. An override always wins, whatever
/// the conventional subdirectory holds; without one, the conventional
/// subdirectory counts only with its configuration file, and a directory
/// that merely exists resolves to no environment at all.
pub fn resolve_venv(
    override_dir: &Option<AbsPath>,
    marker_dir: &AbsPath,
    name: &str,
    conventional_cfg_exists: bool,
) -> (r: Option<AbsPath>)
    ensures
        match override_dir {
            Some(d) => r is Some && r->0@ == d@,
            None => {
                if conventional_cfg_exists {
                    r is Some && r->0@ == marker_dir@.push(name@)
                } else {
                    r is None
                }
            },
        },
{
    match override_dir {
        Some(d) => Some(d.clone_path()),
        None => {
            if conventional_cfg_exists {
                Some(marker_dir.child(name))
            } else {
                None
            }
        },
    }
}

/// The path the delegated command is spawned from: inside the virtual
/// environment's executable directory where one was resolved, and the bare
/// command name, to be found through `PATH`, where none was.
pub fn command_path(cmd: &str, venv: &Option<AbsPath>, platform: Platform) -> (r: String)
    ensures
        match venv {
            Some(v) => r@ == render_spec(v@.push(platform.bin_dir_spec()).push(cmd@)),
            None => r@ == cmd@,
        },
{
    match venv {
        Some(v) => {
            let p = v.child(platform.bin_dir().as_str()).child(cmd);
            p.render()
        },
        None => cmd.to_owned(),
    }
}

} // verus!
