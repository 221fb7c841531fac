//! A copy job built up incrementally: a (source, destination, options)
//! triple whose setters each consume the builder and return the updated one,
//! ending in an explicit [`CopyBuilder::run`]. Running does not consume the
//! builder; a second run re-executes the same walk with the same options.

use vstd::prelude::*;
use crate::engine::run_copy_tree;
use crate::engine::CopyError;
use crate::options::CopyOptions;

verus! {

/// One configured, executable copy job.
pub struct CopyBuilder {
    /// The source root, walked recursively.
    pub source: String,
    /// The destination root; it and missing intermediate directories are
    /// created as required.
    pub destination: String,
    /// The policy the job runs with.
    pub options: CopyOptions,
}

impl CopyBuilder {
    /// A job from `source` to `dest` with the default policy: copy
    /// everything, never overwrite an existing destination file.
    pub fn new(source: &str, dest: &str) -> (r: CopyBuilder)
        ensures
            r.source@ == source@,
            r.destination@ == dest@,
            !r.options.overwrite_all,
            !r.options.overwrite_if_newer,
            !r.options.overwrite_if_size_differs,
            r.options.exclude_filters@.len() == 0,
            r.options.include_filters@.len() == 0,
    {
        CopyBuilder {
            source: source.to_owned(),
            destination: dest.to_owned(),
            options: CopyOptions::new(),
        }
    }

    /// Set whether existing destination files are replaced unconditionally
    /// (off by default). Everything else is kept.
    pub fn overwrite(self, overwrite_all: bool) -> (r: CopyBuilder)
        ensures
            r.source == self.source,
            r.destination == self.destination,
            r.options.overwrite_all == overwrite_all,
            r.options.overwrite_if_newer == self.options.overwrite_if_newer,
            r.options.overwrite_if_size_differs == self.options.overwrite_if_size_differs,
            r.options.exclude_filters == self.options.exclude_filters,
            r.options.include_filters == self.options.include_filters,
    {
        CopyBuilder {
            options: CopyOptions { overwrite_all, ..self.options },
            ..self
        }
    }

    /// Set whether an existing destination file is replaced when the source's
    /// modification time is strictly later (off by default). Everything else
    /// is kept.
    pub fn overwrite_if_newer(self, overwrite_if_newer: bool) -> (r: CopyBuilder)
        ensures
            r.source == self.source,
            r.destination == self.destination,
            r.options.overwrite_all == self.options.overwrite_all,
            r.options.overwrite_if_newer == overwrite_if_newer,
            r.options.overwrite_if_size_differs == self.options.overwrite_if_size_differs,
            r.options.exclude_filters == self.options.exclude_filters,
            r.options.include_filters == self.options.include_filters,
    {
        CopyBuilder {
            options: CopyOptions { overwrite_if_newer, ..self.options },
            ..self
        }
    }

    /// Set whether an existing destination file is replaced when its byte
    /// size differs from the source's (off by default). Everything else is
    /// kept.
    pub fn overwrite_if_size_differs(self, overwrite_if_size_differs: bool) -> (r: CopyBuilder)
        ensures
            r.source == self.source,
            r.destination == self.destination,
            r.options.overwrite_all == self.options.overwrite_all,
            r.options.overwrite_if_newer == self.options.overwrite_if_newer,
            r.options.overwrite_if_size_differs == overwrite_if_size_differs,
            r.options.exclude_filters == self.options.exclude_filters,
            r.options.include_filters == self.options.include_filters,
    {
        CopyBuilder {
            options: CopyOptions { overwrite_if_size_differs, ..self.options },
            ..self
        }
    }

    /// Append one exclude pattern: entries whose relative path contains it
    /// are skipped entirely, a directory together with its whole subtree.
    /// Everything else is kept.
    pub fn with_exclude_filter(self, f: &str) -> (r: CopyBuilder)
        ensures
            r.source == self.source,
            r.destination == self.destination,
            r.options.overwrite_all == self.options.overwrite_all,
            r.options.overwrite_if_newer == self.options.overwrite_if_newer,
            r.options.overwrite_if_size_differs == self.options.overwrite_if_size_differs,
            r.options.include_filters == self.options.include_filters,
            r.options.exclude_filters@.len() == self.options.exclude_filters@.len() + 1,
            r.options.exclude_filters@.last()@ == f@,
            forall|k: int|
                0 <= k < self.options.exclude_filters@.len() ==> r.options.exclude_filters@[k]
                    == self.options.exclude_filters@[k],
    {
        let mut options = self.options;
        options.exclude_filters.push(f.to_owned());
        CopyBuilder { options, ..self }
    }

    /// Append one include pattern: once any include pattern is present, only
    /// entries whose relative path contains at least one of them are copied.
    /// Everything else is kept.
    pub fn with_include_filter(self, f: &str) -> (r: CopyBuilder)
        ensures
            r.source == self.source,
            r.destination == self.destination,
            r.options.overwrite_all == self.options.overwrite_all,
            r.options.overwrite_if_newer == self.options.overwrite_if_newer,
            r.options.overwrite_if_size_differs == self.options.overwrite_if_size_differs,
            r.options.exclude_filters == self.options.exclude_filters,
            r.options.include_filters@.len() == self.options.include_filters@.len() + 1,
            r.options.include_filters@.last()@ == f@,
            forall|k: int|
                0 <= k < self.options.include_filters@.len() ==> r.options.include_filters@[k]
                    == self.options.include_filters@[k],
    {
        let mut options = self.options;
        options.include_filters.push(f.to_owned());
        CopyBuilder { options, ..self }
    }

    /// Execute the job: walk the source tree and copy what the policy
    /// chooses. The configuration is not consumed; a later run re-executes
    /// the same walk. The outcome depends on the filesystem; a failure is
    /// never `InvalidArgument`.
    pub fn run(&self) -> (r: Result<(), CopyError>)
        ensures
            r is Err ==> r->Err_0 != CopyError::InvalidArgument,
    {
        run_copy_tree(self.source.as_str(), self.destination.as_str(), &self.options)
    }
}

} // verus!
