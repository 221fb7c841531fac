//! Filter evaluation: decides whether an entry's relative path is processed.
//!
//! A filter pattern is a plain substring: it matches anywhere in the path
//! text, with no globbing, anchoring or escaping. An entry is accepted when
//! no exclude pattern occurs in its path and, if any include patterns were
//! given, at least one of them occurs in its path.

use vstd::prelude::*;

verus! {

/// The pattern `p` occurs in `h` starting at position `i`.
pub open spec fn match_at(h: Seq<char>, p: Seq<char>, i: int) -> bool {
    &&& 0 <= i
    &&& i + p.len() <= h.len()
    &&& h.subrange(i, i + p.len() as int) == p
}

/// The pattern `p` occurs somewhere in `h` as a contiguous substring.
pub open spec fn contains_pattern(h: Seq<char>, p: Seq<char>) -> bool {
    exists|i: int| match_at(h, p, i)
}

/// Some pattern of `pats` occurs in `h`.
pub open spec fn matches_any(h: Seq<char>, pats: Seq<String>) -> bool {
    exists|k: int| 0 <= k < pats.len() && contains_pattern(h, pats[k]@)
}

/// An entry with relative path `path` passes the filters: no exclude pattern
/// occurs in the path, and either no include patterns were given or at least
/// one of them occurs in the path. Exclusion takes precedence over inclusion.
pub open spec fn entry_accepted(path: Seq<char>, excludes: Seq<String>, includes: Seq<String>) -> bool {
    &&& !matches_any(path, excludes)
    &&& (includes.len() == 0 || matches_any(path, includes))
}

/// Whether `p` occurs in `h` starting exactly at position `i`.
fn check_match_at(h: &str, p: &str, i: usize) -> (r: bool)
    requires
        i + p@.len() <= h@.len(),
    ensures
        r == match_at(h@, p@, i as int),
{
    let hl: usize = h.unicode_len();
    let pl: usize = p.unicode_len();
    let mut j: usize = 0;
    while j < pl
        invariant
            hl == h@.len(),
            pl == p@.len(),
            i + pl <= hl,
            j <= pl,
            forall|k: int| 0 <= k < j ==> h@[i + k] == p@[k],
        decreases pl - j,
    {
        if h.get_char(i + j) != p.get_char(j) {
            proof {
                assert(h@.subrange(i as int, i + pl as int)[j as int] == h@[i + j]);
            }
            return false;
        }
        j += 1;
    }
    proof {
        assert(h@.subrange(i as int, i + pl as int) =~= p@);
    }
    true
}

/// Whether the pattern `p` occurs anywhere in `h` as a contiguous substring.
/// An empty pattern occurs in every string.
pub fn contains_substring(h: &str, p: &str) -> (r: bool)
    ensures
        r == contains_pattern(h@, p@),
{
    let hl: usize = h.unicode_len();
    let pl: usize = p.unicode_len();
    if pl > hl {
        proof {
            assert(forall|i: int| match_at(h@, p@, i) ==> i + p@.len() <= h@.len());
        }
        return false;
    }
    if pl == 0 {
        proof {
            assert(h@.subrange(0, 0) =~= p@);
            assert(match_at(h@, p@, 0));
        }
        return true;
    }
    let mut i: usize = 0;
    while i <= hl - pl
        invariant
            hl == h@.len(),
            pl == p@.len(),
            1 <= pl <= hl,
            i <= hl - pl + 1,
            forall|k: int| 0 <= k < i ==> !match_at(h@, p@, k),
        decreases hl - pl - i + 1,
    {
        if check_match_at(h, p, i) {
            proof {
                assert(match_at(h@, p@, i as int));
            }
            return true;
        }
        i += 1;
    }
    proof {
        assert(forall|k: int| match_at(h@, p@, k) ==> 0 <= k <= hl - pl);
    }
    false
}

/// Whether any pattern of `filters` occurs in `path`.
pub fn matches_any_filter(path: &str, filters: &Vec<String>) -> (r: bool)
    ensures
        r == matches_any(path@, filters@),
{
    let mut k: usize = 0;
    while k < filters.len()
        invariant
            k <= filters@.len(),
            forall|m: int| 0 <= m < k ==> !contains_pattern(path@, filters@[m]@),
        decreases filters@.len() - k,
    {
        if contains_substring(path, filters[k].as_str()) {
            return true;
        }
        k += 1;
    }
    false
}

/// Whether an entry with relative path `path` passes the filters: rejected
/// when any exclude pattern occurs in the path; otherwise accepted when no
/// include patterns were given or at least one occurs in the path.
pub fn path_passes_filters(path: &str, excludes: &Vec<String>, includes: &Vec<String>) -> (r: bool)
    ensures
        r == entry_accepted(path@, excludes@, includes@),
{
    if matches_any_filter(path, excludes) {
        return false;
    }
    if includes.len() == 0 {
        return true;
    }
    matches_any_filter(path, includes)
}

/// Exclusion takes precedence over inclusion: a path in which an exclude
/// pattern occurs is rejected, whatever the include patterns say of it.
pub proof fn lemma_exclude_precedence(path: Seq<char>, excludes: Seq<String>, includes: Seq<String>)
    requires
        matches_any(path, excludes),
    ensures
        !entry_accepted(path, excludes, includes),
{
}

/// A non-empty include set restricts what is copied: a path in which no
/// include pattern occurs is rejected, whatever the exclude patterns say.
pub proof fn lemma_include_restricts(path: Seq<char>, excludes: Seq<String>, includes: Seq<String>)
    requires
        includes.len() > 0,
        !matches_any(path, includes),
    ensures
        !entry_accepted(path, excludes, includes),
{
}

/// A pattern that occurs in a prefix of a path occurs in the whole path.
pub proof fn lemma_pattern_in_prefix(prefix: Seq<char>, whole: Seq<char>, p: Seq<char>)
    requires
        prefix.len() <= whole.len(),
        whole.subrange(0, prefix.len() as int) == prefix,
        contains_pattern(prefix, p),
    ensures
        contains_pattern(whole, p),
{
    let i = choose|i: int| match_at(prefix, p, i);
    assert(whole.subrange(i, i + p.len() as int) =~= p) by {
        assert forall|k: int| 0 <= k < p.len() implies whole.subrange(
            i,
            i + p.len() as int,
        )[k] == p[k] by {
            assert(whole[i + k] == whole.subrange(0, prefix.len() as int)[i + k]);
            assert(prefix.subrange(i, i + p.len() as int)[k] == prefix[i + k]);
        }
    }
    assert(match_at(whole, p, i));
}

/// Exclusion of a directory is final: every entry whose relative path extends
/// an excluded directory's relative path is itself rejected, whatever the
/// include patterns say of it, so the whole subtree is skipped.
pub proof fn lemma_excluded_dir_excludes_subtree(
    dir: Seq<char>,
    descendant: Seq<char>,
    excludes: Seq<String>,
    includes: Seq<String>,
)
    requires
        dir.len() <= descendant.len(),
        descendant.subrange(0, dir.len() as int) == dir,
        matches_any(dir, excludes),
    ensures
        matches_any(descendant, excludes),
        !entry_accepted(descendant, excludes, includes),
{
    let k = choose|k: int| 0 <= k < excludes.len() && contains_pattern(dir, excludes[k]@);
    lemma_pattern_in_prefix(dir, descendant, excludes[k]@);
    assert(matches_any(descendant, excludes));
}

} // verus!
