//! The copy policy: the options of a job, the overwrite decision for a file
//! whose destination counterpart already exists, and the per-entry decision
//! that combines it with the filters.

use vstd::prelude::*;
use crate::filter::entry_accepted;
use crate::filter::path_passes_filters;

verus! {

/// How a copy job behaves: which entries it copies, and when it replaces an
/// existing destination file. The overwrite flags are independent; an entry
/// is overwritten when any enabled condition is satisfied, and never when no
/// flag is set.
pub struct CopyOptions {
    /// Replace any existing destination file unconditionally.
    pub overwrite_all: bool,
    /// Replace an existing destination file when the source's modification
    /// time is strictly later than the destination's.
    pub overwrite_if_newer: bool,
    /// Replace an existing destination file when its byte size differs from
    /// the source's.
    pub overwrite_if_size_differs: bool,
    /// An entry whose relative path contains any of these patterns is skipped
    /// entirely; a skipped directory's subtree is never descended into.
    pub exclude_filters: Vec<String>,
    /// When non-empty, only entries whose relative path contains at least one
    /// of these patterns are copied; empty means everything not excluded.
    pub include_filters: Vec<String>,
}

/// The overwrite decision for a source file whose destination counterpart
/// already exists: it is replaced exactly when some enabled condition holds —
/// an unconditional overwrite, a strictly later source modification time, or
/// a differing byte size. The enabled conditions are combined by OR, never as
/// a priority chain. With no flag enabled, the file is left untouched.
pub open spec fn overwrite_decision(
    opts: CopyOptions,
    src_mtime: u64,
    dest_mtime: u64,
    src_size: u64,
    dest_size: u64,
) -> bool {
    ||| opts.overwrite_all
    ||| (opts.overwrite_if_newer && src_mtime > dest_mtime)
    ||| (opts.overwrite_if_size_differs && src_size != dest_size)
}

/// The whole per-file decision: a source file is copied exactly when its
/// relative path passes the filters and either no destination counterpart
/// exists or the overwrite decision replaces it.
pub open spec fn copy_decision(
    opts: CopyOptions,
    path: Seq<char>,
    dest_exists: bool,
    src_mtime: u64,
    dest_mtime: u64,
    src_size: u64,
    dest_size: u64,
) -> bool {
    &&& entry_accepted(path, opts.exclude_filters@, opts.include_filters@)
    &&& (!dest_exists || overwrite_decision(opts, src_mtime, dest_mtime, src_size, dest_size))
}

impl CopyOptions {
    /// The default policy: copy everything, never overwrite an existing
    /// destination file.
    pub fn new() -> (r: CopyOptions)
        ensures
            !r.overwrite_all,
            !r.overwrite_if_newer,
            !r.overwrite_if_size_differs,
            r.exclude_filters@.len() == 0,
            r.include_filters@.len() == 0,
    {
        CopyOptions {
            overwrite_all: false,
            overwrite_if_newer: false,
            overwrite_if_size_differs: false,
            exclude_filters: Vec::new(),
            include_filters: Vec::new(),
        }
    }

    /// Whether an entry with the given path relative to the source root
    /// passes this policy's filters.
    pub fn accepts(&self, path: &str) -> (r: bool)
        ensures
            r == entry_accepted(path@, self.exclude_filters@, self.include_filters@),
    {
        path_passes_filters(path, &self.exclude_filters, &self.include_filters)
    }

    /// The overwrite decision for a source file whose destination counterpart
    /// already exists, from the two modification times and the two byte
    /// sizes. Every enabled flag is consulted; the results are combined by OR.
    pub fn should_overwrite(
        &self,
        src_mtime: u64,
        dest_mtime: u64,
        src_size: u64,
        dest_size: u64,
    ) -> (r: bool)
        ensures
            r == overwrite_decision(*self, src_mtime, dest_mtime, src_size, dest_size),
    {
        let newer: bool = self.overwrite_if_newer && src_mtime > dest_mtime;
        let differs: bool = self.overwrite_if_size_differs && src_size != dest_size;
        self.overwrite_all || newer || differs
    }

    /// The whole per-file decision: whether a source file with the given
    /// relative path is copied, given whether a destination counterpart
    /// exists and, if one does, the two modification times and byte sizes.
    /// A file whose destination counterpart does not exist is copied whenever
    /// it passes the filters; the time and size arguments are then ignored.
    pub fn decides_copy(
        &self,
        path: &str,
        dest_exists: bool,
        src_mtime: u64,
        dest_mtime: u64,
        src_size: u64,
        dest_size: u64,
    ) -> (r: bool)
        ensures
            r == copy_decision(
                *self,
                path@,
                dest_exists,
                src_mtime,
                dest_mtime,
                src_size,
                dest_size,
            ),
    {
        if !self.accepts(path) {
            return false;
        }
        if !dest_exists {
            return true;
        }
        self.should_overwrite(src_mtime, dest_mtime, src_size, dest_size)
    }
}

/// With every overwrite flag off, a file whose destination counterpart
/// already exists is never copied again: a second run of the same job over an
/// already-copied tree skips every such file and leaves the destination
/// unchanged.
pub proof fn lemma_no_overwrite_flags_skip(
    opts: CopyOptions,
    path: Seq<char>,
    src_mtime: u64,
    dest_mtime: u64,
    src_size: u64,
    dest_size: u64,
)
    requires
        !opts.overwrite_all,
        !opts.overwrite_if_newer,
        !opts.overwrite_if_size_differs,
    ensures
        !copy_decision(opts, path, true, src_mtime, dest_mtime, src_size, dest_size),
{
}

} // verus!
