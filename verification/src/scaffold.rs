//! Decision rules for laying out a fresh project: whether a directory may be
//! (re)used and whether a file may be written, given what already stands at
//! the destination. The surrounding program reads the filesystem and carries
//! the chosen action out.
use vstd::prelude::*;

verus! {

/// What to do about a directory the skeleton needs.
pub enum DirPlan {
    /// Create the directory, parents included.
    Create,
    /// The directory exists and may be used as it is.
    Use,
    /// A file stands in the way.
    RefuseFile,
    /// The directory exists and is not empty, and overwriting was not asked.
    RefuseNonEmpty,
    /// Something neither file nor directory stands there.
    RefuseUnknown,
}

/// The rule for one needed directory: a file or an unidentifiable record at
/// the destination always refuses; an existing directory is used when it is
/// empty or when overwriting was asked; only a missing one is created.
pub open spec fn spec_dir_plan(
    is_file: bool,
    is_dir: bool,
    is_empty: bool,
    exists: bool,
    clobber: bool,
) -> DirPlan {
    if is_file {
        DirPlan::RefuseFile
    } else if is_dir {
        if is_empty || clobber {
            DirPlan::Use
        } else {
            DirPlan::RefuseNonEmpty
        }
    } else if exists {
        DirPlan::RefuseUnknown
    } else {
        DirPlan::Create
    }
}

/// Decides what to do about one needed directory.
pub fn dir_plan(is_file: bool, is_dir: bool, is_empty: bool, exists: bool, clobber: bool) -> (res:
    DirPlan)
    ensures
        res == spec_dir_plan(is_file, is_dir, is_empty, exists, clobber),
{
    if is_file {
        DirPlan::RefuseFile
    } else if is_dir {
        if is_empty || clobber {
            DirPlan::Use
        } else {
            DirPlan::RefuseNonEmpty
        }
    } else if exists {
        DirPlan::RefuseUnknown
    } else {
        DirPlan::Create
    }
}

/// What to do about a file the skeleton wants to write.
pub enum FilePlan {
    /// Write it: nothing stands there.
    Write,
    /// Write it over what stands there, with a warning.
    Overwrite,
    /// Refuse: the file exists and overwriting was not asked.
    RefuseExisting,
}

/// The rule for one skeleton file: an existing destination is overwritten
/// only where overwriting was asked, and is refused otherwise.
pub open spec fn spec_file_plan(exists: bool, clobber: bool) -> FilePlan {
    if !exists {
        FilePlan::Write
    } else if clobber {
        FilePlan::Overwrite
    } else {
        FilePlan::RefuseExisting
    }
}

/// Decides what to do about one skeleton file.
pub fn file_plan(exists: bool, clobber: bool) -> (res: FilePlan)
    ensures
        res == spec_file_plan(exists, clobber),
{
    if !exists {
        FilePlan::Write
    } else if clobber {
        FilePlan::Overwrite
    } else {
        FilePlan::RefuseExisting
    }
}

} // verus!
