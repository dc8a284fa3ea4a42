//! Where the platform keeps an application's configuration, as the
//! `directories` crate and `std::path` answer it. Nothing here is proved.

use directories::ProjectDirs;
use std::path::PathBuf;
use vstd::prelude::*;

verus! {

#[verifier::external_type_specification]
#[verifier::external_body]
pub struct ExProjectDirs(ProjectDirs);

#[verifier::external_type_specification]
#[verifier::external_body]
pub struct ExPathBuf(PathBuf);

/// The path `Path::join` makes of a directory and the name of an entry in it.
pub uninterp spec fn joined(directory: PathBuf, name: Seq<char>) -> PathBuf;

/// The local configuration directory that project directories name: what
/// `ProjectDirs::config_local_dir` reads from them.
pub uninterp spec fn local_config(dirs: ProjectDirs) -> PathBuf;

/// `ProjectDirs::from` with no qualifier and no organization: the project
/// directories of `application`, or `None` where the platform names no home
/// directory. The answer depends on the environment, so nothing is said of it.
#[verifier::external_body]
pub(crate) fn project_dirs(application: &str) -> Option<ProjectDirs> {
    ProjectDirs::from("", "", application)
}

/// `ProjectDirs::config_local_dir`, as an owned path: the directory that the
/// project directories hold under that name, whatever made them.
#[verifier::external_body]
pub(crate) fn config_local_dir(dirs: &ProjectDirs) -> (path: PathBuf)
    ensures
        path == local_config(*dirs),
{
    dirs.config_local_dir().to_path_buf()
}

/// `Path::join`: the path of the entry `name` in `directory`.
#[verifier::external_body]
pub(crate) fn join(directory: &PathBuf, name: &str) -> (path: PathBuf)
    ensures
        path == joined(*directory, name@),
{
    directory.join(name)
}

} // verus!
