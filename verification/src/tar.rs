//! The command lines of the external tar utility, and the verdict on how
//! it ended.

use crate::text::{strings_of, texts};
use vstd::prelude::*;

verus! {

/// `tar -cf <tar_path> -C <workspace_dir> .`
pub open spec fn tar_argv(workspace_dir: Seq<char>, tar_path: Seq<char>) -> Seq<Seq<char>> {
    seq!["tar"@, "-cf"@, tar_path, "-C"@, workspace_dir, "."@]
}

/// `tar -xf <tar_path> -C <dest_dir>`
pub open spec fn untar_argv(tar_path: Seq<char>, dest_dir: Seq<char>) -> Seq<Seq<char>> {
    seq!["tar"@, "-xf"@, tar_path, "-C"@, dest_dir]
}

/// The tar utility exited with a failure status.
#[derive(Clone, Copy, Debug, PartialEq, Eq, Structural)]
pub enum TarError {
    /// The archive could not be created.
    CreateFailed,
    /// The archive could not be extracted.
    ExtractFailed,
}

/// The command that packs the contents of `workspace_dir` into the
/// archive `tar_path`.
pub fn tar_workspace(workspace_dir: &str, tar_path: &str) -> (argv: Vec<String>)
    ensures
        texts(argv@) == tar_argv(workspace_dir@, tar_path@),
{
    let argv = strings_of(&["tar", "-cf", tar_path, "-C", workspace_dir, "."]);
    assert(texts(argv@) =~= tar_argv(workspace_dir@, tar_path@));
    argv
}

/// The command that unpacks the archive `tar_path` into `dest_dir`.
pub fn untar_workspace(tar_path: &str, dest_dir: &str) -> (argv: Vec<String>)
    ensures
        texts(argv@) == untar_argv(tar_path@, dest_dir@),
{
    let argv = strings_of(&["tar", "-xf", tar_path, "-C", dest_dir]);
    assert(texts(argv@) =~= untar_argv(tar_path@, dest_dir@));
    argv
}

/// The result of packing, given whether tar exited with success.
pub fn tar_result(success: bool) -> (r: Result<(), TarError>)
    ensures
        r == (if success {
            Ok::<(), TarError>(())
        } else {
            Err(TarError::CreateFailed)
        }),
{
    if success {
        Ok(())
    } else {
        Err(TarError::CreateFailed)
    }
}

/// The result of unpacking, given whether tar exited with success.
pub fn untar_result(success: bool) -> (r: Result<(), TarError>)
    ensures
        r == (if success {
            Ok::<(), TarError>(())
        } else {
            Err(TarError::ExtractFailed)
        }),
{
    if success {
        Ok(())
    } else {
        Err(TarError::ExtractFailed)
    }
}

} // verus!
