//! A directory-tree copy engine: replicates a source directory's files and
//! subdirectories into a destination, with substring filters choosing which
//! entries are copied and independent overwrite flags deciding when an
//! existing destination file is replaced.
//!
//! The policy model — filter evaluation, the overwrite decision, and the
//! per-entry copy decision — is stated and verified here; the tree walk and
//! the byte transfer are carried out by the `dircpy` crate, which applies the
//! same policies.

mod builder;
mod engine;
mod filter;
mod options;

pub use builder::CopyBuilder;
pub use engine::copy;
pub use engine::copy_advanced;
pub use engine::CopyError;
pub use filter::contains_pattern;
pub use filter::contains_substring;
pub use filter::entry_accepted;
pub use filter::lemma_exclude_precedence;
pub use filter::lemma_excluded_dir_excludes_subtree;
pub use filter::lemma_include_restricts;
pub use filter::lemma_pattern_in_prefix;
pub use filter::match_at;
pub use filter::matches_any;
pub use filter::matches_any_filter;
pub use filter::path_passes_filters;
pub use options::copy_decision;
pub use options::lemma_no_overwrite_flags_skip;
pub use options::overwrite_decision;
pub use options::CopyOptions;
