//! Character-level string helpers: equality, suffix tests, and splitting a
//! path at its last separator.
//!
//! Paths are plain strings joined with `/`; the specs below are stated over
//! their `Seq<char>` views.

use vstd::prelude::*;

verus! {

/// True when `s` holds at least one `/` separator.
pub open spec fn has_sep(s: Seq<char>) -> bool {
    exists|i: int| 0 <= i < s.len() && s[i] == '/'
}

/// `i` is the position of the last `/` in `s`.
pub open spec fn is_last_sep(s: Seq<char>, i: int) -> bool {
    &&& 0 <= i < s.len()
    &&& s[i] == '/'
    &&& forall|j: int| i < j < s.len() ==> s[j] != '/'
}

/// The position of the last `/` in `s` (meaningful only when `has_sep(s)`).
pub open spec fn last_sep(s: Seq<char>) -> int {
    choose|i: int| is_last_sep(s, i)
}

/// Everything before the last `/`; the empty string when there is none.
pub open spec fn parent_of(s: Seq<char>) -> Seq<char> {
    if has_sep(s) {
        s.subrange(0, last_sep(s))
    } else {
        Seq::empty()
    }
}

/// Everything after the last `/`; the whole string when there is none.
pub open spec fn file_name_of(s: Seq<char>) -> Seq<char> {
    if has_sep(s) {
        s.subrange(last_sep(s) + 1, s.len() as int)
    } else {
        s
    }
}

/// `a` and `b` joined with a single `/`.
pub open spec fn join_seq(a: Seq<char>, b: Seq<char>) -> Seq<char> {
    a + seq!['/'] + b
}

/// `suffix` is a suffix of `s`.
pub open spec fn spec_ends_with(s: Seq<char>, suffix: Seq<char>) -> bool {
    suffix.len() <= s.len() && s.subrange(s.len() - suffix.len(), s.len() as int) == suffix
}

pub proof fn lemma_last_sep_exists(s: Seq<char>)
    requires
        has_sep(s),
    ensures
        is_last_sep(s, last_sep(s)),
    decreases s.len(),
{
    if s.len() > 0 && s[s.len() - 1] == '/' {
        assert(is_last_sep(s, s.len() - 1));
    } else {
        let i = choose|i: int| 0 <= i < s.len() && s[i] == '/';
        assert(0 <= i < s.len() - 1);
        let t = s.drop_last();
        assert(t[i] == '/');
        lemma_last_sep_exists(t);
        let k = last_sep(t);
        assert(s[k] == t[k]);
        assert forall|j: int| k < j < s.len() implies s[j] != '/' by {
            if j < t.len() {
                assert(t[j] != '/');
                assert(s[j] == t[j]);
            } else {
                assert(j == s.len() - 1);
            }
        }
        assert(is_last_sep(s, k));
    }
}

pub proof fn lemma_last_sep_unique(s: Seq<char>, i: int, j: int)
    requires
        is_last_sep(s, i),
        is_last_sep(s, j),
    ensures
        i == j,
{
}

/// Character-by-character string equality, reflected to the views.
pub fn str_eq(a: &str, b: &str) -> (r: bool)
    ensures
        r == (a@ == b@),
{
    let an = a.unicode_len();
    let bn = b.unicode_len();
    if an != bn {
        assert(a@ != b@) by {
            assert(a@.len() != b@.len());
        }
        return false;
    }
    let mut i: usize = 0;
    while i < an
        invariant
            0 <= i <= an,
            an as nat == a@.len(),
            an as nat == b@.len(),
            forall|k: int| 0 <= k < i ==> a@[k] == b@[k],
        decreases an - i,
    {
        if a.get_char(i) != b.get_char(i) {
            return false;
        }
        i += 1;
    }
    assert(a@ =~= b@);
    true
}

/// Whether `s` ends with `suffix`, reflected to the views.
pub fn str_ends_with(s: &str, suffix: &str) -> (r: bool)
    ensures
        r == spec_ends_with(s@, suffix@),
{
    let n = s.unicode_len();
    let m = suffix.unicode_len();
    if m > n {
        return false;
    }
    let mut i: usize = 0;
    while i < m
        invariant
            0 <= i <= m,
            m <= n,
            n as nat == s@.len(),
            m as nat == suffix@.len(),
            forall|k: int| 0 <= k < i ==> s@[s@.len() - suffix@.len() + k] == suffix@[k],
        decreases m - i,
    {
        if s.get_char(n - m + i) != suffix.get_char(i) {
            assert(!spec_ends_with(s@, suffix@)) by {
                assert(s@.subrange(s@.len() - suffix@.len(), s@.len() as int)[i as int]
                    == s@[s@.len() - suffix@.len() + i]);
            }
            return false;
        }
        i += 1;
    }
    assert(s@.subrange(s@.len() - suffix@.len(), s@.len() as int) =~= suffix@);
    true
}

/// Joins two path fragments with a single `/`.
pub fn path_join(a: &str, b: &str) -> (r: String)
    ensures
        r@ == join_seq(a@, b@),
{
    proof {
        reveal_strlit("/");
    }
    let r = a.to_owned().concat("/").concat(b);
    assert(r@ =~= join_seq(a@, b@));
    r
}

/// The position of the last `/` in `s`, if any.
pub fn find_last_sep(s: &str) -> (r: Option<usize>)
    ensures
        match r {
            Some(i) => is_last_sep(s@, i as int) && i as int == last_sep(s@),
            None => !has_sep(s@),
        },
{
    let n = s.unicode_len();
    let mut i: usize = n;
    while i > 0
        invariant
            0 <= i <= n,
            n as nat == s@.len(),
            forall|j: int| i <= j < s@.len() ==> s@[j] != '/',
        decreases i,
    {
        i -= 1;
        if s.get_char(i) == '/' {
            proof {
                assert(is_last_sep(s@, i as int));
                lemma_last_sep_exists(s@);
                lemma_last_sep_unique(s@, i as int, last_sep(s@));
            }
            return Some(i);
        }
    }
    None
}

/// Everything before the last `/`; the empty string when there is none.
pub fn path_parent(s: &str) -> (r: String)
    ensures
        r@ == parent_of(s@),
{
    match find_last_sep(s) {
        Some(i) => {
            let p = s.substring_char(0, i);
            p.to_owned()
        },
        None => String::new(),
    }
}

/// `s` without a trailing `.exe`, when it has one.
pub open spec fn strip_dot_exe_spec(s: Seq<char>) -> Seq<char> {
    if spec_ends_with(s, ".exe"@) {
        s.subrange(0, s.len() - ".exe"@.len())
    } else {
        s
    }
}

/// Strips a trailing `.exe`, when there is one.
pub fn strip_dot_exe(s: &str) -> (r: String)
    ensures
        r@ == strip_dot_exe_spec(s@),
{
    if str_ends_with(s, ".exe") {
        proof {
            reveal_strlit(".exe");
        }
        let n = s.unicode_len();
        s.substring_char(0, n - 4).to_owned()
    } else {
        s.to_owned()
    }
}

/// Everything after the last `/`; the whole string when there is none.
pub fn path_file_name(s: &str) -> (r: String)
    ensures
        r@ == file_name_of(s@),
{
    match find_last_sep(s) {
        Some(i) => {
            let n = s.unicode_len();
            let p = s.substring_char(i + 1, n);
            p.to_owned()
        },
        None => s.to_owned(),
    }
}

} // verus!
