//! Source discovery: selecting compiled-language sources.
//!
//! Traversal of the embedded codebases' directory trees is filesystem work
//! and lives with the caller; this module owns the selection rule. A path
//! names a compiled-language source exactly when its final component has
//! the `.cpp` extension — a suffix `.cpp` with at least one character of
//! file stem before it.

use vstd::prelude::*;
use vstd::string::StrSliceExecFns;

verus! {

/// A path whose final component carries the `.cpp` extension: the path ends
/// in `.cpp`, and the character before that suffix exists and is not the
/// component separator (so a bare `.cpp` file name, which has no extension,
/// is not selected).
pub open spec fn spec_is_compiled_source(p: Seq<char>) -> bool {
    &&& p.len() >= 5
    &&& p.subrange(p.len() - 4, p.len() as int) == ".cpp"@
    &&& p[p.len() - 5] != '/'
}

/// Decides whether a path names a compiled-language source file.
pub fn is_compiled_source(path: &str) -> (r: bool)
    ensures
        r == spec_is_compiled_source(path@),
{
    proof {
        reveal_strlit(".cpp");
    }
    let n = path.unicode_len();
    if n < 5 {
        return false;
    }
    let r = path.get_char(n - 4) == '.' && path.get_char(n - 3) == 'c' && path.get_char(n - 2)
        == 'p' && path.get_char(n - 1) == 'p' && path.get_char(n - 5) != '/';
    proof {
        if r {
            assert(path@.subrange(path@.len() - 4, path@.len() as int) =~= ".cpp"@);
        } else {
            if path@.subrange(path@.len() - 4, path@.len() as int) == ".cpp"@ {
                assert(path@[path@.len() - 4] == ".cpp"@[0]);
                assert(path@[path@.len() - 3] == ".cpp"@[1]);
                assert(path@[path@.len() - 2] == ".cpp"@[2]);
                assert(path@[path@.len() - 1] == ".cpp"@[3]);
            }
        }
    }
    r
}

/// The subsequence of compiled-language sources among the given paths, in
/// their original order.
pub open spec fn spec_selected_sources(entries: Seq<Seq<char>>) -> Seq<Seq<char>> {
    entries.filter(|p: Seq<char>| spec_is_compiled_source(p))
}

/// Keeps exactly the compiled-language source paths from a listing,
/// preserving their order. The traversal that produced the listing must
/// have been exhaustive; selection itself drops only non-source entries.
pub fn select_sources(entries: &Vec<String>) -> (sources: Vec<String>)
    ensures
        sources.deep_view() == spec_selected_sources(entries.deep_view()),
{
    let mut sources: Vec<String> = Vec::new();
    let ghost all = entries.deep_view();
    let mut i: usize = 0;
    while i < entries.len()
        invariant
            i <= entries.len(),
            all == entries.deep_view(),
            all.len() == entries@.len(),
            forall|j: int| 0 <= j < entries@.len() ==> all[j] == entries@[j]@,
            sources.deep_view() == spec_selected_sources(all.take(i as int)),
        decreases entries.len() - i,
    {
        let ghost before = sources.deep_view();
        if is_compiled_source(entries[i].as_str()) {
            sources.push(entries[i].clone());
            proof {
                assert(sources.deep_view() =~= before.push(all[i as int]));
            }
        }
        proof {
            reveal(Seq::filter);
            assert(all.take(i + 1).drop_last() =~= all.take(i as int));
            assert(all.take(i + 1).last() == all[i as int]);
            assert(spec_selected_sources(all.take(i + 1)) == if spec_is_compiled_source(
                all[i as int],
            ) {
                spec_selected_sources(all.take(i as int)).push(all[i as int])
            } else {
                spec_selected_sources(all.take(i as int))
            });
        }
        i += 1;
    }
    proof {
        assert(all.take(entries@.len() as int) =~= all);
    }
    sources
}

} // verus!
