//! Verified text utilities: whitespace trimming, prefix tests and substring
//! search over `&str` and `String`, specified over `Seq<char>` views.

use vstd::prelude::*;

verus! {

/// Whitespace as recognized when tidying user input.
pub open spec fn is_space(c: char) -> bool {
    c == ' ' || c == '\t' || c == '\r' || c == '\n'
}

/// Executable test matching `is_space`.
pub fn char_is_space(c: char) -> (r: bool)
    ensures
        r == is_space(c),
{
    c == ' ' || c == '\t' || c == '\r' || c == '\n'
}

/// `s` with its leading whitespace removed.
pub open spec fn trim_front(s: Seq<char>) -> Seq<char>
    decreases s.len(),
{
    if s.len() == 0 {
        s
    } else if is_space(s[0]) {
        trim_front(s.drop_first())
    } else {
        s
    }
}

/// `s` with its trailing whitespace removed.
pub open spec fn trim_back(s: Seq<char>) -> Seq<char>
    decreases s.len(),
{
    if s.len() == 0 {
        s
    } else if is_space(s.last()) {
        trim_back(s.drop_last())
    } else {
        s
    }
}

/// `s` with leading and trailing whitespace removed.
pub open spec fn trimmed(s: Seq<char>) -> Seq<char> {
    trim_back(trim_front(s))
}

/// True when nothing but whitespace is left of `s`.
pub open spec fn is_blank(s: Seq<char>) -> bool {
    trimmed(s).len() == 0
}

proof fn lemma_trim_front_subrange(s: Seq<char>, i: int)
    requires
        0 <= i <= s.len(),
        forall|k: int| 0 <= k < i ==> is_space(s[k]),
        i < s.len() ==> !is_space(s[i]),
    ensures
        trim_front(s) =~= s.subrange(i, s.len() as int),
    decreases i,
{
    if i == 0 {
        assert(trim_front(s) =~= s.subrange(0, s.len() as int));
    } else {
        assert(is_space(s[0]));
        let t = s.drop_first();
        assert(forall|k: int| 0 <= k < i - 1 ==> is_space(#[trigger] t[k]));
        lemma_trim_front_subrange(t, i - 1);
        assert(t.subrange(i - 1, t.len() as int) =~= s.subrange(i, s.len() as int));
    }
}

proof fn lemma_trim_back_subrange(s: Seq<char>, m: int)
    requires
        0 <= m <= s.len(),
        forall|k: int| m <= k < s.len() ==> is_space(s[k]),
        m > 0 ==> !is_space(s[m - 1]),
    ensures
        trim_back(s) =~= s.subrange(0, m),
    decreases s.len() - m,
{
    if m == s.len() {
        assert(trim_back(s) =~= s.subrange(0, m));
    } else {
        assert(is_space(s.last()));
        let t = s.drop_last();
        lemma_trim_back_subrange(t, m);
        assert(t.subrange(0, m) =~= s.subrange(0, m));
    }
}

/// Executable trim: the view of the result is `trimmed` of the view of the
/// input.
pub fn trim_str(s: &str) -> (r: String)
    ensures
        r@ == trimmed(s@),
{
    let len = s.unicode_len();
    let mut lo: usize = 0;
    loop
        invariant
            lo <= len,
            len == s@.len(),
            forall|k: int| 0 <= k < lo ==> is_space(s@[k]),
        ensures
            lo <= len,
            forall|k: int| 0 <= k < lo ==> is_space(s@[k]),
            lo < len ==> !is_space(s@[lo as int]),
        decreases len - lo,
    {
        if lo >= len {
            break ;
        }
        if !char_is_space(s.get_char(lo)) {
            break ;
        }
        lo += 1;
    }
    proof {
        lemma_trim_front_subrange(s@, lo as int);
    }
    let mut hi: usize = len;
    loop
        invariant
            lo <= hi <= len,
            len == s@.len(),
            forall|k: int| hi <= k < len ==> is_space(s@[k]),
        ensures
            lo <= hi <= len,
            forall|k: int| hi <= k < len ==> is_space(s@[k]),
            hi > lo ==> !is_space(s@[hi - 1]),
        decreases hi,
    {
        if hi <= lo {
            break ;
        }
        if !char_is_space(s.get_char(hi - 1)) {
            break ;
        }
        hi -= 1;
    }
    let piece = s.substring_char(lo, hi);
    let r = String::from_str(piece);
    proof {
        let front = s@.subrange(lo as int, len as int);
        if hi > lo {
            lemma_trim_back_subrange(front, hi - lo);
        } else {
            lemma_trim_back_subrange(front, 0);
        }
        assert(front.subrange(0, hi - lo) =~= s@.subrange(lo as int, hi as int));
    }
    r
}

/// Executable blank test.
pub fn str_is_blank(s: &str) -> (r: bool)
    ensures
        r == is_blank(s@),
{
    let t = trim_str(s);
    t.as_str().is_empty()
}

/// Executable prefix test: true exactly when `p`'s view is a prefix of
/// `s`'s view.
pub fn str_has_prefix(s: &str, p: &str) -> (r: bool)
    ensures
        r == p@.is_prefix_of(s@),
{
    let sl = s.unicode_len();
    let pl = p.unicode_len();
    if pl > sl {
        return false;
    }
    let mut i: usize = 0;
    while i < pl
        invariant
            i <= pl <= sl,
            sl == s@.len(),
            pl == p@.len(),
            forall|k: int| 0 <= k < i ==> s@[k] == p@[k],
        decreases pl - i,
    {
        if s.get_char(i) != p.get_char(i) {
            assert(s@.subrange(0, pl as int)[i as int] != p@[i as int]);
            return false;
        }
        i += 1;
    }
    assert(p@ =~= s@.subrange(0, pl as int));
    true
}

/// `sub` occurs in `s` at offset `i`.
pub open spec fn is_match_at(s: Seq<char>, sub: Seq<char>, i: int) -> bool {
    0 <= i && i + sub.len() <= s.len() && sub == s.subrange(i, i + sub.len())
}

/// True when `sub` occurs somewhere in `s`.
pub open spec fn contains_seq(s: Seq<char>, sub: Seq<char>) -> bool {
    exists|i: int| is_match_at(s, sub, i)
}

/// `i` is the offset of the first occurrence of `sub` in `s`.
pub open spec fn first_match_is(s: Seq<char>, sub: Seq<char>, i: int) -> bool {
    is_match_at(s, sub, i) && forall|j: int| 0 <= j < i ==> !is_match_at(s, sub, j)
}

/// A first occurrence is unique.
pub proof fn lemma_first_match_unique(s: Seq<char>, sub: Seq<char>, i: int, j: int)
    requires
        first_match_is(s, sub, i),
        first_match_is(s, sub, j),
    ensures
        i == j,
{
}

/// Finds the offset of the first occurrence of `sub` in `s`, by direct
/// comparison at every offset.
pub fn find_first(s: &str, sub: &str) -> (r: Option<usize>)
    ensures
        r matches Some(i) ==> first_match_is(s@, sub@, i as int),
        r is None ==> !contains_seq(s@, sub@),
{
    let sl = s.unicode_len();
    let nl = sub.unicode_len();
    if nl > sl {
        assert(forall|i: int| !is_match_at(s@, sub@, i));
        return None;
    }
    if nl == 0 {
        assert(is_match_at(s@, sub@, 0)) by {
            assert(sub@ =~= s@.subrange(0, 0 + sub@.len() as int));
        }
        return Some(0);
    }
    let mut i: usize = 0;
    while i <= sl - nl
        invariant
            1 <= nl <= sl,
            i + nl <= sl + 1,
            sl == s@.len(),
            nl == sub@.len(),
            forall|x: int| 0 <= x < i ==> !is_match_at(s@, sub@, x),
        decreases sl - i,
    {
        let mut j: usize = 0;
        let mut matched = true;
        while j < nl
            invariant
                i + nl <= sl,
                sl == s@.len(),
                nl == sub@.len(),
                j <= nl,
                matched ==> forall|k: int| 0 <= k < j ==> s@[i + k] == sub@[k],
                !matched ==> !is_match_at(s@, sub@, i as int),
            decreases nl - j,
        {
            if s.get_char(i + j) != sub.get_char(j) {
                assert(s@.subrange(i as int, i + sub@.len() as int)[j as int] != sub@[j as int]);
                matched = false;
                j = nl;
            } else {
                j += 1;
            }
        }
        if matched {
            assert(sub@ =~= s@.subrange(i as int, i + sub@.len() as int));
            return Some(i);
        }
        i += 1;
    }
    assert forall|x: int| !is_match_at(s@, sub@, x) by {
        if 0 <= x && x + sub@.len() <= s@.len() {
            assert(x < i);
        }
    }
    None
}

/// Executable substring search.
pub fn str_contains(s: &str, sub: &str) -> (r: bool)
    ensures
        r == contains_seq(s@, sub@),
{
    find_first(s, sub).is_some()
}

} // verus!
