//! The internal-path normalizer.
//!
//! Internal framework runtime files that are intentionally shared, unbundled
//! code live under the internal distribution root, optionally under an ESM
//! subdirectory, and end in `.external` or `.external.js`. Such a resolved
//! path is rewritten back to a distribution-root-relative specifier: the
//! leading part up to the first occurrence of the distribution root is
//! dropped, and path separators are normalized to forward slashes.

use vstd::prelude::*;
use vstd::string::StrSliceExecFns;
use crate::text::{match_at, match_char, match_suffix, match_within, normalize_seps};
use crate::text::{concat2, find_match, match_suffix_str, normalize_path_sep};

verus! {

/// A resolved path denotes a shared internal runtime file: it lies under the
/// internal distribution root and carries the `.external` or `.external.js`
/// suffix.
pub open spec fn spec_is_next_external_path(p: Seq<char>) -> bool {
    &&& match_within(p, "next/dist/"@, true)
    &&& (match_suffix(p, ".external"@, false) || match_suffix(p, ".external.js"@, false))
}

/// The first offset at or after `off` where the distribution root occurs in
/// `p`, accepting either path separator.
pub open spec fn first_next_dist_offset(p: Seq<char>, off: int) -> Option<int>
    decreases p.len() - off when 0 <= off <= p.len()
{
    if off + "next/dist"@.len() > p.len() {
        None
    } else if match_at(p, "next/dist"@, off, true) {
        Some(off)
    } else {
        first_next_dist_offset(p, off + 1)
    }
}

/// `first_next_dist_offset` returns exactly the least matching offset.
proof fn lemma_first_next_dist_offset_found(p: Seq<char>, lo: int, i: int)
    requires
        0 <= lo <= i,
        match_at(p, "next/dist"@, i, true),
        forall|j: int| lo <= j < i ==> !match_at(p, "next/dist"@, j, true),
    ensures
        first_next_dist_offset(p, lo) == Some(i),
    decreases i - lo,
{
    if lo < i {
        lemma_first_next_dist_offset_found(p, lo + 1, i);
    }
}

/// The distribution-root-relative specifier of a shared internal runtime
/// file: the part of the path from the first occurrence of the distribution
/// root on, with separators normalized. Paths that are no such file have no
/// specifier.
pub open spec fn spec_next_external_specifier(p: Seq<char>) -> Option<Seq<char>> {
    if spec_is_next_external_path(p) {
        match first_next_dist_offset(p, 0) {
            Some(i) => Some("next/dist"@ + normalize_seps(p.skip(i + "next/dist"@.len()))),
            None => None,
        }
    } else {
        None
    }
}

/// An occurrence of the distribution root followed by a separator contains an
/// occurrence of the bare distribution root at the same offset.
proof fn lemma_root_within(p: Seq<char>, w: int)
    requires
        match_at(p, "next/dist/"@, w, true),
    ensures
        match_at(p, "next/dist"@, w, true),
{
    reveal_strlit("next/dist/");
    reveal_strlit("next/dist");
    assert forall|k: int| 0 <= k < "next/dist"@.len() implies match_char(
        p[w + k],
        "next/dist"@[k],
        true,
    ) by {
        assert(match_char(p[w + k], "next/dist/"@[k], true));
        assert("next/dist"@[k] == "next/dist/"@[k]);
    }
}

/// Computes the distribution-root-relative specifier of a shared internal
/// runtime file, or nothing when the path is no such file.
pub fn next_external_specifier(p: &str) -> (r: Option<String>)
    ensures
        r.deep_view() == spec_next_external_specifier(p@),
{
    let has_suffix = match_suffix_str(p, ".external", false)
        || match_suffix_str(p, ".external.js", false);
    if !has_suffix {
        return None;
    }
    match find_match(p, "next/dist/", true) {
        None => {
            assert(!match_within(p@, "next/dist/"@, true));
            None
        },
        Some(w) => {
            assert(match_within(p@, "next/dist/"@, true));
            proof {
                lemma_root_within(p@, w as int);
            }
            match find_match(p, "next/dist", true) {
                None => {
                    proof {
                        assert(false);
                    }
                    None
                },
                Some(i) => {
                    proof {
                        lemma_first_next_dist_offset_found(p@, 0, i as int);
                    }
                    let root_len: usize = "next/dist".unicode_len();
                    let p_len: usize = p.unicode_len();
                    assert(i + root_len <= p_len);
                    let rest = p.substring_char(i + root_len, p_len);
                    assert(rest@ =~= p@.skip(i + "next/dist"@.len()));
                    let norm = normalize_path_sep(rest);
                    let out = concat2("next/dist", norm.as_str());
                    Some(out)
                },
            }
        },
    }
}

/// Rewrites the resolved path of a shared internal runtime file to the
/// external reference the runtime loads it by: the distribution-root-relative
/// specifier behind synchronous require semantics. Other paths yield nothing.
pub fn resolve_next_external(local_res: &str) -> (r: Option<String>)
    ensures
        r.deep_view() == match spec_next_external_specifier(local_res@) {
            Some(s) => Some("commonjs "@ + s),
            None => None::<Seq<char>>,
        },
{
    match next_external_specifier(local_res) {
        Some(s) => Some(concat2("commonjs ", s.as_str())),
        None => None,
    }
}

/// Law: for a path in which the distribution root occurs at offset `i`,
/// re-appending the dropped leading part to the normalizer's output
/// reconstructs the whole path up to path-separator normalization.
pub proof fn lemma_next_external_round_trip(p: Seq<char>, i: int, s: Seq<char>)
    requires
        match_at(p, "next/dist"@, i, true),
        s == "next/dist"@ + normalize_seps(p.skip(i + "next/dist"@.len())),
    ensures
        normalize_seps(p.take(i)) + s == normalize_seps(p),
{
    reveal_strlit("next/dist");
    let root = "next/dist"@;
    let lhs = normalize_seps(p.take(i)) + s;
    let rhs = normalize_seps(p);
    assert(root.len() == 9);
    assert forall|k: int| 0 <= k < p.len() implies lhs[k] == rhs[k] by {
        if k < i {
            assert(lhs[k] == normalize_seps(p.take(i))[k]);
        } else if k < i + 9 {
            let j = k - i;
            assert(match_char(p[k], root[j], true));
            assert(root[j] != '\\');
            if p[k] == '\\' {
                assert(root[j] == '/');
            }
            assert(lhs[k] == root[j]);
        } else {
            assert(lhs[k] == normalize_seps(p.skip(i + 9))[k - i - 9]);
        }
    }
    assert(lhs =~= rhs);
}

} // verus!
