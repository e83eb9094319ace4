//! The asset-sync policy: a file is copied only where the destination is
//! missing or strictly older than the source; directories are created where
//! absent. No state is kept between runs — every decision derives from the
//! filesystem metadata handed in.
use vstd::prelude::*;

use crate::errors::BuildError;
use crate::paths::{join_under, joined, rel_to, strip_base};

verus! {

/// The mirrored destination of an asset found at `path` under the assets
/// root: the same relative path under the output root.
pub open spec fn mirror_of(
    path: Seq<char>,
    assets_root: Seq<char>,
    out_dir: Seq<char>,
    sep: char,
) -> Option<Seq<char>> {
    match rel_to(path, assets_root, sep) {
        Option::None => Option::None,
        Option::Some(rel) => Option::Some(joined(out_dir, rel, sep)),
    }
}

/// Computes where an asset belongs in the output tree. A path that does not
/// lie under the assets root has no mirror and is rejected.
pub fn asset_destination(path: &str, assets_root: &str, out_dir: &str, sep: char) -> (res: Result<
    String,
    BuildError,
>)
    ensures
        res is Ok <==> mirror_of(path@, assets_root@, out_dir@, sep) is Some,
        res is Ok ==> Option::Some(res->Ok_0@) == mirror_of(path@, assets_root@, out_dir@, sep),
        res is Err ==> res->Err_0 is InvalidPath && res->Err_0.spec_subject() == path@,
{
    match strip_base(path, assets_root, sep) {
        Some(rel) => Ok(join_under(out_dir, rel.as_str(), sep)),
        None => Err(BuildError::InvalidPath(path.to_owned())),
    }
}

/// What one entry under the assets root asks for.
pub enum SyncStep {
    /// The source is a file and the destination is missing or older: copy.
    CopyFile,
    /// The source is a file and the destination is at least as new: skip.
    SkipFile,
    /// The source is a directory the destination tree lacks: create it.
    MakeDir,
    /// Anything else: leave the destination alone.
    Leave,
}

/// The decision for one entry: `src_mtime` and `dst_mtime` are modification
/// times on one monotone scale, and `dst_mtime` is read only where the
/// destination exists.
pub open spec fn spec_sync_step(
    is_file: bool,
    is_dir: bool,
    dst_exists: bool,
    src_mtime: u128,
    dst_mtime: u128,
) -> SyncStep {
    if is_file {
        if !dst_exists || src_mtime > dst_mtime {
            SyncStep::CopyFile
        } else {
            SyncStep::SkipFile
        }
    } else if is_dir && !dst_exists {
        SyncStep::MakeDir
    } else {
        SyncStep::Leave
    }
}

/// Decides what to do with one entry under the assets root.
pub fn sync_step(
    is_file: bool,
    is_dir: bool,
    dst_exists: bool,
    src_mtime: u128,
    dst_mtime: u128,
) -> (res: SyncStep)
    ensures
        res == spec_sync_step(is_file, is_dir, dst_exists, src_mtime, dst_mtime),
{
    if is_file {
        if !dst_exists || src_mtime > dst_mtime {
            SyncStep::CopyFile
        } else {
            SyncStep::SkipFile
        }
    } else if is_dir && !dst_exists {
        SyncStep::MakeDir
    } else {
        SyncStep::Leave
    }
}

/// Law: equal modification times favour not copying — a destination exactly
/// as new as its source is left alone.
pub proof fn lemma_tie_skips(is_dir: bool, mtime: u128)
    ensures
        spec_sync_step(true, is_dir, true, mtime, mtime) is SkipFile,
{
}

/// Law: syncing is idempotent. A copy leaves the destination present with a
/// modification time no earlier than its source's; as long as the source
/// does not change, the next run skips the file. A file skipped the first
/// time is skipped again: its decision reads the same times.
pub proof fn lemma_sync_idempotent(is_dir: bool, src_mtime: u128, dst_mtime: u128)
    requires
        dst_mtime >= src_mtime,
    ensures
        spec_sync_step(true, is_dir, true, src_mtime, dst_mtime) is SkipFile,
{
}

/// Law: only a strictly newer source displaces an existing destination, and
/// a missing destination is always filled.
pub proof fn lemma_copy_exactly_when_newer(
    is_dir: bool,
    dst_exists: bool,
    src_mtime: u128,
    dst_mtime: u128,
)
    ensures
        spec_sync_step(true, is_dir, dst_exists, src_mtime, dst_mtime) is CopyFile <==> (!dst_exists
            || src_mtime > dst_mtime),
{
}

} // verus!
