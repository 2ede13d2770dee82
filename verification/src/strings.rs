//! Verified string primitives used throughout the pipeline: equality,
//! prefix, suffix and substring tests, character search, and common
//! defaulting helpers.

use vstd::prelude::*;
use vstd::string::StrSliceExecFns;
use vstd::string::StringExecFns;

verus! {

/// Index of the first occurrence of `c` in `s` at or after `from`,
/// or -1 when there is none.
pub open spec fn char_index_from(s: Seq<char>, c: char, from: nat) -> int
    decreases s.len() - from when from <= s.len()
{
    if from >= s.len() {
        -1
    } else if s[from as int] == c {
        from as int
    } else {
        char_index_from(s, c, (from + 1) as nat)
    }
}

pub proof fn lemma_char_index_from(s: Seq<char>, c: char, from: nat)
    requires
        from <= s.len(),
    ensures
        char_index_from(s, c, from) == -1 ==> forall|j: int|
            from <= j < s.len() ==> s[j] != c,
        char_index_from(s, c, from) >= 0 ==> {
            &&& from <= char_index_from(s, c, from) < s.len()
            &&& s[char_index_from(s, c, from)] == c
            &&& forall|j: int| from <= j < char_index_from(s, c, from) ==> s[j] != c
        },
    decreases s.len() - from,
{
    if from < s.len() && s[from as int] != c {
        lemma_char_index_from(s, c, (from + 1) as nat);
    }
}

/// Whether `p` occurs in `s` as a contiguous subsequence.
pub open spec fn contains_seq(s: Seq<char>, p: Seq<char>) -> bool {
    exists|i: int| 0 <= i <= s.len() - p.len() && #[trigger] s.subrange(i, i + p.len()) == p
}

/// Character-wise string equality.
pub fn str_eq(a: &str, b: &str) -> (r: bool)
    ensures
        r == (a@ == b@),
{
    let alen = a.unicode_len();
    let blen = b.unicode_len();
    if alen != blen {
        return false;
    }
    let mut i: usize = 0;
    while i < alen
        invariant
            alen == a@.len(),
            alen == b@.len(),
            0 <= i <= alen,
            forall|j: int| 0 <= j < i ==> a@[j] == b@[j],
        decreases alen - i,
    {
        if a.get_char(i) != b.get_char(i) {
            return false;
        }
        i = i + 1;
    }
    proof {
        assert(a@ =~= b@);
    }
    true
}

/// Whether `p` is a prefix of `s`.
pub fn starts_with_str(s: &str, p: &str) -> (r: bool)
    ensures
        r == p@.is_prefix_of(s@),
{
    let pl = p.unicode_len();
    if pl > s.unicode_len() {
        return false;
    }
    let sub = s.substring_char(0, pl);
    str_eq(sub, p)
}

/// Whether `p` is a suffix of `s`.
pub fn ends_with_str(s: &str, p: &str) -> (r: bool)
    ensures
        r == p@.is_suffix_of(s@),
{
    let pl = p.unicode_len();
    let sl = s.unicode_len();
    if pl > sl {
        return false;
    }
    let sub = s.substring_char(sl - pl, sl);
    str_eq(sub, p)
}

/// Whether `p` occurs anywhere in `s`.
pub fn contains_str(s: &str, p: &str) -> (r: bool)
    ensures
        r == contains_seq(s@, p@),
{
    let pl = p.unicode_len();
    let sl = s.unicode_len();
    if pl > sl {
        return false;
    }
    if pl == 0 {
        proof {
            let w: int = 0;
            assert(s@.subrange(w, w + p@.len()) =~= p@);
        }
        return true;
    }
    let mut i: usize = 0;
    while i <= sl - pl
        invariant
            pl == p@.len(),
            sl == s@.len(),
            1 <= pl <= sl,
            0 <= i <= sl - pl + 1,
            forall|j: int| 0 <= j < i ==> #[trigger] s@.subrange(j, j + p@.len()) != p@,
        decreases sl - i,
    {
        let sub = s.substring_char(i, i + pl);
        if str_eq(sub, p) {
            return true;
        }
        i = i + 1;
    }
    false
}

/// First occurrence of `c` in `s` at or after `from`.
pub fn find_char_from(s: &str, c: char, from: usize) -> (r: Option<usize>)
    requires
        from <= s@.len(),
    ensures
        match r {
            Some(i) => from <= i < s@.len() && s@[i as int] == c
                && char_index_from(s@, c, from as nat) == i,
            None => char_index_from(s@, c, from as nat) == -1,
        },
{
    let sl = s.unicode_len();
    let mut i: usize = from;
    while i < sl
        invariant
            sl == s@.len(),
            from <= i <= sl,
            char_index_from(s@, c, from as nat) == char_index_from(s@, c, i as nat),
        decreases sl - i,
    {
        if s.get_char(i) == c {
            return Some(i);
        }
        i = i + 1;
    }
    None
}

/// The contained string, or a copy of `default` when absent.
pub fn unwrap_or_str(o: &Option<String>, default: &str) -> (r: String)
    ensures
        r@ == opt_str(*o, default@),
{
    match o {
        Some(s) => s.clone(),
        None => String::from_str(default),
    }
}

/// The view of an optional string, defaulted.
pub open spec fn opt_str(o: Option<String>, default: Seq<char>) -> Seq<char> {
    match o {
        Some(s) => s@,
        None => default,
    }
}

/// Textual form of a boolean.
pub open spec fn bool_str(b: bool) -> Seq<char> {
    if b {
        "true"@
    } else {
        "false"@
    }
}

/// Textual form of a boolean, as written into CI variable files.
pub fn bool_string(b: bool) -> (r: String)
    ensures
        r@ == bool_str(b),
{
    if b {
        String::from_str("true")
    } else {
        String::from_str("false")
    }
}

/// Views of a list of strings.
pub open spec fn string_views(s: Seq<String>) -> Seq<Seq<char>> {
    s.map_values(|x: String| x@)
}

/// Views of a list of key/value pairs.
pub open spec fn pair_views(s: Seq<(String, String)>) -> Seq<(Seq<char>, Seq<char>)> {
    s.map_values(|p: (String, String)| (p.0@, p.1@))
}

/// Whether some element of `v` reads exactly `s`.
pub open spec fn list_has(v: Seq<String>, s: Seq<char>) -> bool {
    exists|i: int| 0 <= i < v.len() && (#[trigger] v[i])@ == s
}

/// Whether some element of `v` reads exactly `s`.
pub fn list_contains(v: &Vec<String>, s: &str) -> (r: bool)
    ensures
        r == list_has(v@, s@),
{
    let mut i: usize = 0;
    while i < v.len()
        invariant
            0 <= i <= v@.len(),
            forall|j: int| 0 <= j < i ==> (#[trigger] v@[j])@ != s@,
        decreases v@.len() - i,
    {
        if str_eq(v[i].as_str(), s) {
            proof {
                assert((v@[i as int])@ == s@);
            }
            return true;
        }
        i = i + 1;
    }
    false
}

} // verus!
