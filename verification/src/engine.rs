//! Execution of a copy job and its outcome. The tree walk, the directory
//! creation and the byte transfer are carried out by the `dircpy` crate,
//! which applies the filter and overwrite policies of [`CopyOptions`]; its
//! filesystem errors come back as the coarse [`CopyError`].

use vstd::prelude::*;
use crate::options::CopyOptions;

verus! {

/// Why a copy job failed.
#[derive(Clone, Copy, Debug, PartialEq, Eq, Structural)]
pub enum CopyError {
    /// A supplied path or filter pattern was not valid text. The engine
    /// itself never reports this: its paths and patterns are strings already.
    /// An adapter that decodes foreign input reports it when decoding fails.
    InvalidArgument,
    /// The source root does not exist.
    NotFound,
    /// A filesystem operation failed: a directory could not be read or
    /// created, or a file could not be opened, read or written.
    IoFailure,
}

/// Relies on dircpy::copy_dir_advanced: it resolves `source` before touching
/// `dest`, walks the source tree in pre-order, skips every entry whose
/// relative path contains an exclude filter (with its whole subtree), copies
/// only files that pass the include filters, replaces an existing destination
/// file exactly when an enabled overwrite condition holds, and aborts on the
/// first filesystem error with a std::io::Error that keeps the error kind.
#[verifier::external_body]
pub(crate) fn run_copy_tree(source: &str, dest: &str, options: &CopyOptions) -> (r: Result<
    (),
    CopyError,
>)
    ensures
        r is Err ==> r->Err_0 != CopyError::InvalidArgument,
{
    match dircpy::copy_dir_advanced(
        source,
        dest,
        options.overwrite_all,
        options.overwrite_if_newer,
        options.overwrite_if_size_differs,
        options.exclude_filters.clone(),
        options.include_filters.clone(),
    ) {
        Ok(()) => Ok(()),
        Err(e) if e.kind() == std::io::ErrorKind::NotFound => Err(CopyError::NotFound),
        Err(_) => Err(CopyError::IoFailure),
    }
}

/// One-shot copy with the default policy: every entry is copied, an existing
/// destination file is never overwritten. The destination root and any
/// missing intermediate directories are created. The outcome depends on the
/// filesystem; a failure is never `InvalidArgument`.
pub fn copy(source: &str, dest: &str) -> (r: Result<(), CopyError>)
    ensures
        r is Err ==> r->Err_0 != CopyError::InvalidArgument,
{
    let options = CopyOptions::new();
    run_copy_tree(source, dest, &options)
}

/// One-shot copy with the full policy: the three overwrite flags are
/// independent and combined by OR, `exclude` patterns skip matching entries
/// and their subtrees, and non-empty `include` patterns restrict what is
/// copied. The outcome depends on the filesystem; a failure is never
/// `InvalidArgument`.
pub fn copy_advanced(
    source: &str,
    dest: &str,
    overwrite_all: bool,
    overwrite_if_newer: bool,
    overwrite_if_size_differs: bool,
    exclude_filters: Vec<String>,
    include_filters: Vec<String>,
) -> (r: Result<(), CopyError>)
    ensures
        r is Err ==> r->Err_0 != CopyError::InvalidArgument,
{
    let options = CopyOptions {
        overwrite_all,
        overwrite_if_newer,
        overwrite_if_size_differs,
        exclude_filters,
        include_filters,
    };
    run_copy_tree(source, dest, &options)
}

} // verus!
