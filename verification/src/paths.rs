//! Rules on the path entries of a form: which entries count, and whether a
//! path lies in the web build directory.

use vstd::prelude::*;
use vstd::string::*;

verus! {

/// The test an entry of a file list has to pass to stay: it is not blank.
pub open spec fn is_kept() -> spec_fn(Seq<char>) -> bool {
    |entry: Seq<char>| entry.len() > 0
}

/// The entries that are not blank, in their order.
pub open spec fn non_blank(entries: Seq<Seq<char>>) -> Seq<Seq<char>> {
    entries.filter(is_kept())
}

/// `segment` is the first segment of `path`: it holds no separator, `path`
/// starts with it, and it ends where `path` ends or at a `/`.
pub open spec fn is_first_segment(path: Seq<char>, segment: Seq<char>) -> bool {
    &&& !segment.contains('/')
    &&& segment.is_prefix_of(path)
    &&& (path.len() == segment.len() || path[segment.len() as int] == '/')
}

/// The directory a web challenge is built from.
pub open spec fn web_build_dir() -> Seq<char> {
    "server"@
}

/// The path lies in the web build directory, going by its first segment.
pub open spec fn inside_build_dir(path: Seq<char>) -> bool {
    is_first_segment(path, web_build_dir())
}

/// Adding one entry to a list adds it to the non-blank entries, unless it is
/// blank.
pub proof fn lemma_non_blank_push(entries: Seq<Seq<char>>, entry: Seq<char>)
    ensures
        non_blank(entries.push(entry)) == if entry.len() > 0 {
            non_blank(entries).push(entry)
        } else {
            non_blank(entries)
        },
{
    entries.lemma_filter_push(entry, is_kept());
}

/// Drops the blank entries of a file list and keeps the others in their
/// order.
pub fn non_blank_entries(entries: &Vec<String>) -> (kept: Vec<String>)
    ensures
        kept.deep_view() == non_blank(entries.deep_view()),
{
    let mut kept: Vec<String> = Vec::new();
    let mut i: usize = 0;
    proof {
        reveal(Seq::filter);
        assert(entries.deep_view().take(0) =~= Seq::<Seq<char>>::empty());
        assert(kept.deep_view() =~= Seq::<Seq<char>>::empty());
    }
    while i < entries.len()
        invariant
            i <= entries.len(),
            kept.deep_view() == non_blank(entries.deep_view().take(i as int)),
        decreases entries.len() - i,
    {
        let entry = &entries[i];
        let ghost before = kept.deep_view();
        if !entry.as_str().is_empty() {
            kept.push(entry.clone());
            assert(kept.deep_view() =~= before.push(entry@));
        }
        proof {
            let all = entries.deep_view();
            assert(all.take(i + 1) =~= all.take(i as int).push(entry@));
            lemma_non_blank_push(all.take(i as int), entry@);
        }
        i += 1;
    }
    assert(entries.deep_view().take(i as int) =~= entries.deep_view());
    kept
}

/// Whether a path, written with `/` between its segments, lies in the web
/// build directory: it is `server`, or starts with `server/`.
pub fn in_build_dir(path: &str) -> (inside: bool)
    ensures
        inside == inside_build_dir(path@),
{
    let dir = "server";
    proof {
        reveal_strlit("server");
        assert(!dir@.contains('/')) by {
            assert forall|i: int| 0 <= i < dir@.len() implies dir@[i] != '/' by {}
        }
    }
    let length = path.unicode_len();
    if length < 6 {
        return false;
    }
    let mut i: usize = 0;
    while i < 6
        invariant
            i <= 6,
            dir@ == web_build_dir(),
            dir@.len() == 6,
            length == path@.len(),
            length >= 6,
            forall|j: int| 0 <= j < i ==> path@[j] == dir@[j],
        decreases 6 - i,
    {
        if path.get_char(i) != dir.get_char(i) {
            assert(path@.subrange(0, 6)[i as int] != dir@[i as int]);
            return false;
        }
        i += 1;
    }
    assert(dir@ =~= path@.subrange(0, 6));
    if length == 6 {
        true
    } else {
        path.get_char(6) == '/'
    }
}

} // verus!
