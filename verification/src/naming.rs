//! Derivation of a package's display name from its installation path
//! key, and of the archive file name written into the output directory.
//!
//! A path key such as `node_modules/@scope/name` locates a package
//! inside the installation tree. The display name is the part of the
//! key after its last installation-root marker, with every remaining
//! slash replaced by a hyphen; a key without the marker is malformed.

use vstd::prelude::*;

verus! {

/// The fixed installation-root marker that separates a package's
/// install-path prefix from its name within a path key.
pub open spec fn spec_marker() -> Seq<char> {
    "node_modules/"@
}

/// Length of the installation-root marker, in characters.
pub const MARKER_LEN: usize = 13;

/// The marker occurs in `s` starting at position `i`.
pub open spec fn marker_at(s: Seq<char>, i: int) -> bool {
    &&& 0 <= i
    &&& i + MARKER_LEN <= s.len()
    &&& s.subrange(i, i + MARKER_LEN) == spec_marker()
}

/// Position of the last marker occurrence in `s` at or below `i`.
pub open spec fn last_marker_from(s: Seq<char>, i: int) -> Option<int>
    decreases i + 1,
{
    if i < 0 {
        None
    } else if marker_at(s, i) {
        Some(i)
    } else {
        last_marker_from(s, i - 1)
    }
}

/// Position of the last marker occurrence in `s`, if any.
pub open spec fn last_marker(s: Seq<char>) -> Option<int> {
    last_marker_from(s, s.len() as int - MARKER_LEN as int)
}

/// Every slash replaced by a hyphen; other characters unchanged.
pub open spec fn hyphenate(t: Seq<char>) -> Seq<char> {
    t.map_values(|c: char| if c == '/' { '-' } else { c })
}

/// The display name derived from a path key: the suffix after the last
/// marker, hyphenated; `None` when the key holds no marker.
pub open spec fn spec_derived_name(s: Seq<char>) -> Option<Seq<char>> {
    match last_marker(s) {
        Some(i) => Some(hyphenate(s.subrange(i + MARKER_LEN, s.len() as int))),
        None => None,
    }
}

proof fn lemma_last_marker_from_props(s: Seq<char>, hi: int)
    ensures
        match last_marker_from(s, hi) {
            Some(i) => marker_at(s, i) && i <= hi && (forall|j: int|
                i < j <= hi ==> !marker_at(s, j)),
            None => forall|j: int| j <= hi ==> !marker_at(s, j),
        },
    decreases hi + 1,
{
    if hi < 0 {
    } else if marker_at(s, hi) {
    } else {
        lemma_last_marker_from_props(s, hi - 1);
    }
}

/// The last-marker position is an occurrence, and no occurrence lies
/// beyond it; `None` means the key holds no occurrence at all.
pub proof fn lemma_last_marker_is_last(s: Seq<char>)
    ensures
        match last_marker(s) {
            Some(i) => marker_at(s, i) && (forall|j: int| i < j ==> !marker_at(s, j)),
            None => forall|j: int| !marker_at(s, j),
        },
{
    lemma_last_marker_from_props(s, s.len() as int - MARKER_LEN as int);
    assert(forall|j: int| j > s.len() as int - MARKER_LEN as int ==> !marker_at(s, j));
}

/// Compares the characters of `s` at `i..i + MARKER_LEN` with the marker.
fn marker_match_at(s: &str, i: usize) -> (r: bool)
    requires
        i + MARKER_LEN <= s@.len(),
        s@.len() <= usize::MAX,
    ensures
        r == marker_at(s@, i as int),
{
    let m: &str = "node_modules/";
    proof {
        reveal_strlit("node_modules/");
    }
    let mut j: usize = 0;
    while j < MARKER_LEN
        invariant
            j <= MARKER_LEN,
            i + MARKER_LEN <= s@.len(),
            s@.len() <= usize::MAX,
            m@ == spec_marker(),
            m@.len() == MARKER_LEN,
            forall|k: int| 0 <= k < j ==> s@[i + k] == spec_marker()[k],
        decreases MARKER_LEN - j,
    {
        let sc = s.get_char(i + j);
        let mc = m.get_char(j);
        if sc != mc {
            proof {
                if marker_at(s@, i as int) {
                    assert(s@.subrange(i as int, i as int + MARKER_LEN as int)[j as int]
                        == s@[i as int + j as int]);
                }
            }
            return false;
        }
        j += 1;
    }
    proof {
        assert(s@.subrange(i as int, i as int + MARKER_LEN as int) =~= spec_marker());
    }
    true
}

/// Finds the position of the last marker occurrence in `s`.
fn find_last_marker(s: &str) -> (r: Option<usize>)
    ensures
        match r {
            Some(i) => last_marker(s@) == Some(i as int),
            None => last_marker(s@) is None,
        },
        s@.len() <= usize::MAX,
{
    let n = s.unicode_len();
    if n < MARKER_LEN {
        proof {
            assert(last_marker_from(s@, s@.len() as int - MARKER_LEN as int) is None);
        }
        return None;
    }
    let mut i: usize = n - MARKER_LEN;
    loop
        invariant
            n == s@.len(),
            MARKER_LEN <= n,
            i <= n - MARKER_LEN,
            last_marker(s@) == last_marker_from(s@, i as int),
        decreases i,
    {
        if marker_match_at(s, i) {
            proof {
                assert(last_marker_from(s@, i as int) == Some(i as int));
            }
            return Some(i);
        }
        if i == 0 {
            proof {
                assert(last_marker_from(s@, 0) == last_marker_from(s@, -1));
                assert(last_marker_from(s@, -1) is None);
            }
            return None;
        }
        i -= 1;
    }
}

/// Copies the characters of `s` from position `from` on, replacing
/// every slash by a hyphen.
fn hyphenate_from(s: &str, from: usize) -> (r: String)
    requires
        from <= s@.len(),
        s@.len() <= usize::MAX,
    ensures
        r@ == hyphenate(s@.subrange(from as int, s@.len() as int)),
{
    let n = s.unicode_len();
    let mut out = String::new();
    let mut i: usize = from;
    while i < n
        invariant
            from <= i <= n,
            n == s@.len(),
            out@ == hyphenate(s@.subrange(from as int, i as int)),
        decreases n - i,
    {
        let c = s.get_char(i);
        if c == '/' {
            out.append("-");
            proof {
                reveal_strlit("-");
                assert(out@ =~= hyphenate(s@.subrange(from as int, i as int)).push('-'));
            }
        } else {
            let piece = s.substring_char(i, i + 1);
            out.append(piece);
            proof {
                assert(piece@ =~= seq![s@[i as int]]);
                assert(out@ =~= hyphenate(s@.subrange(from as int, i as int)).push(s@[i as int]));
            }
        }
        proof {
            assert(s@.subrange(from as int, i + 1 as int) =~= s@.subrange(
                from as int,
                i as int,
            ).push(s@[i as int]));
            assert(hyphenate(s@.subrange(from as int, i + 1 as int)) =~= hyphenate(
                s@.subrange(from as int, i as int),
            ).push(if s@[i as int] == '/' {
                '-'
            } else {
                s@[i as int]
            }));
        }
        i += 1;
    }
    proof {
        assert(s@.subrange(from as int, i as int) == s@.subrange(from as int, s@.len() as int));
    }
    out
}

/// Derives the display name from a path key: the suffix after the last
/// installation-root marker, with slashes turned into hyphens. A key
/// without the marker is malformed and yields `None`.
pub fn derive_package_name(path_key: &str) -> (r: Option<String>)
    ensures
        match r {
            Some(name) => spec_derived_name(path_key@) == Some(name@),
            None => spec_derived_name(path_key@) is None,
        },
{
    match find_last_marker(path_key) {
        None => None,
        Some(i) => {
            proof {
                lemma_last_marker_is_last(path_key@);
            }
            let start = i + MARKER_LEN;
            Some(hyphenate_from(path_key, start))
        },
    }
}

/// The archive file name for a derived display name and a version.
pub open spec fn spec_tarball_file_name(name: Seq<char>, version: Seq<char>) -> Seq<char> {
    name + "-"@ + version + ".tgz"@
}

/// Builds the `{name}-{version}.tgz` archive file name.
pub fn tarball_file_name(name: &str, version: &str) -> (r: String)
    ensures
        r@ == spec_tarball_file_name(name@, version@),
{
    let mut out = String::from_str(name);
    out.append("-");
    out.append(version);
    out.append(".tgz");
    out
}

} // verus!
