//! The pure half of the repository state queries: parsing captured query
//! output into branch listings and conflicted-file listings, and the
//! clean-tree gate.
//!
//! A listing is the query output split at newlines, each field trimmed,
//! blank fields removed.

use vstd::prelude::*;
use crate::text::{is_blank, trimmed, trim_str};
use crate::workflow::WorkflowError;

verus! {

/// The fields of `s` separated by occurrences of `sep`; a sequence of
/// `n` separators yields `n + 1` fields, empty ones included.
pub open spec fn split_fields(s: Seq<char>, sep: char) -> Seq<Seq<char>>
    decreases s.len(),
{
    if s.len() == 0 {
        seq![Seq::<char>::empty()]
    } else if s[0] == sep {
        seq![Seq::<char>::empty()] + split_fields(s.drop_first(), sep)
    } else {
        let rest = split_fields(s.drop_first(), sep);
        seq![seq![s[0]] + rest[0]] + rest.drop_first()
    }
}

/// The fields of `s` separated by newline characters.
pub open spec fn split_on_newlines(s: Seq<char>) -> Seq<Seq<char>> {
    split_fields(s, '\n')
}

/// Each field trimmed, blank fields dropped, order kept.
pub open spec fn tidy(fields: Seq<Seq<char>>) -> Seq<Seq<char>>
    decreases fields.len(),
{
    if fields.len() == 0 {
        Seq::<Seq<char>>::empty()
    } else {
        let rest = tidy(fields.drop_last());
        if trimmed(fields.last()).len() > 0 {
            rest.push(trimmed(fields.last()))
        } else {
            rest
        }
    }
}

/// What a listing parses to: the newline-separated fields, trimmed, with
/// blanks removed.
pub open spec fn parsed_items(s: Seq<char>) -> Seq<Seq<char>> {
    tidy(split_on_newlines(s))
}

proof fn lemma_split_nonempty(s: Seq<char>, sep: char)
    ensures
        split_fields(s, sep).len() >= 1,
    decreases s.len(),
{
    if s.len() != 0 {
        lemma_split_nonempty(s.drop_first(), sep);
    }
}

proof fn lemma_split_no_sep(s: Seq<char>, sep: char)
    requires
        forall|k: int| 0 <= k < s.len() ==> s[k] != sep,
    ensures
        split_fields(s, sep) =~= seq![s],
    decreases s.len(),
{
    if s.len() != 0 {
        let t = s.drop_first();
        assert(s[0] != sep);
        assert forall|k: int| 0 <= k < t.len() implies t[k] != sep by {
            assert(t[k] == s[k + 1]);
        }
        lemma_split_no_sep(t, sep);
        let rest = split_fields(t, sep);
        assert(rest[0] == t);
        assert(rest.drop_last() =~= Seq::<Seq<char>>::empty());
        assert(rest.drop_first() =~= Seq::<Seq<char>>::empty());
        assert(seq![s[0]] + t =~= s);
        assert(split_fields(s, sep) =~= seq![seq![s[0]] + rest[0]] + rest.drop_first());
        assert(seq![seq![s[0]] + rest[0]] + rest.drop_first() =~= seq![s]);
    } else {
        assert(s =~= Seq::<char>::empty());
    }
}

proof fn lemma_split_concat(a: Seq<char>, b: Seq<char>, sep: char)
    ensures
        split_fields(a + seq![sep] + b, sep) =~= split_fields(a, sep) + split_fields(b, sep),
    decreases a.len(),
{
    let s = a + seq![sep] + b;
    if a.len() == 0 {
        assert(s[0] == sep);
        assert(s.drop_first() =~= b);
        assert(split_fields(a, sep) =~= seq![Seq::<char>::empty()]);
    } else {
        assert(s[0] == a[0]);
        assert(s.len() > 0);
        let a1 = a.drop_first();
        assert(s.drop_first() =~= a1 + seq![sep] + b);
        lemma_split_concat(a1, b, sep);
        lemma_split_nonempty(a1, sep);
        let ra = split_fields(a1, sep);
        let rb = split_fields(b, sep);
        if a[0] == sep {
            assert(split_fields(s, sep) =~= seq![Seq::<char>::empty()] + (ra + rb));
            assert(split_fields(a, sep) =~= seq![Seq::<char>::empty()] + ra);
            assert(seq![Seq::<char>::empty()] + (ra + rb) =~= (seq![Seq::<char>::empty()] + ra)
                + rb);
        } else {
            let rest = split_fields(s.drop_first(), sep);
            assert(rest == ra + rb);
            assert(rest[0] == ra[0]);
            assert(rest.drop_first() =~= ra.drop_first() + rb);
            assert(split_fields(s, sep) =~= seq![seq![a[0]] + ra[0]] + (ra.drop_first() + rb));
            assert(split_fields(a, sep) =~= seq![seq![a[0]] + ra[0]] + ra.drop_first());
            assert(seq![seq![a[0]] + ra[0]] + (ra.drop_first() + rb) =~= (seq![seq![a[0]] + ra[0]]
                + ra.drop_first()) + rb);
        }
    }
}

proof fn lemma_tidy_snoc(fs: Seq<Seq<char>>, f: Seq<char>)
    ensures
        tidy(fs + seq![f]) =~= tidy(fs) + (if trimmed(f).len() > 0 {
            seq![trimmed(f)]
        } else {
            Seq::<Seq<char>>::empty()
        }),
{
    let w = fs + seq![f];
    assert(w.len() == fs.len() + 1);
    assert(w.last() == f);
    assert(w.drop_last() =~= fs);
}

/// Parses a listing: splits the text at newlines, trims every field and
/// keeps the non-blank ones, in order.
pub fn parse_lines(s: &str) -> (r: Vec<String>)
    ensures
        r.deep_view() == parsed_items(s@),
{
    let len = s.unicode_len();
    let mut r: Vec<String> = Vec::new();
    let mut start: usize = 0;
    let mut i: usize = 0;
    let ghost mut done: Seq<Seq<char>> = Seq::empty();
    proof {
        assert(split_on_newlines(s@) =~= done + split_on_newlines(
            s@.subrange(0, s@.len() as int),
        )) by {
            assert(s@.subrange(0, s@.len() as int) =~= s@);
        }
    }
    while i < len
        invariant
            start <= i <= len,
            len == s@.len(),
            split_on_newlines(s@) == done + split_on_newlines(
                s@.subrange(start as int, len as int),
            ),
            forall|k: int| start <= k < i ==> s@[k] != '\n',
            r.deep_view() == tidy(done),
        decreases len - i,
    {
        if s.get_char(i) == '\n' {
            let piece = s.substring_char(start, i);
            let t = trim_str(piece);
            let ghost f = s@.subrange(start as int, i as int);
            proof {
                let suffix = s@.subrange(start as int, len as int);
                let after = s@.subrange(i + 1, len as int);
                assert(suffix =~= f + seq!['\n'] + after);
                lemma_split_concat(f, after, '\n');
                lemma_split_no_sep(f, '\n');
                assert(split_on_newlines(suffix) == seq![f] + split_on_newlines(after));
                assert(done + split_on_newlines(suffix) =~= (done + seq![f]) + split_on_newlines(
                    after,
                ));
                lemma_tidy_snoc(done, f);
            }
            if !t.as_str().is_empty() {
                let ghost prev = r.deep_view();
                r.push(t);
                proof {
                    assert(r.deep_view() =~= prev + seq![trimmed(f)]);
                }
            }
            proof {
                done = done + seq![f];
            }
            start = i + 1;
        }
        i += 1;
    }
    let piece = s.substring_char(start, len);
    let t = trim_str(piece);
    let ghost f = s@.subrange(start as int, len as int);
    proof {
        lemma_split_no_sep(f, '\n');
        assert(split_on_newlines(s@) == done + seq![f]);
        lemma_tidy_snoc(done, f);
    }
    if !t.as_str().is_empty() {
        let ghost prev = r.deep_view();
        r.push(t);
        proof {
            assert(r.deep_view() =~= prev + seq![trimmed(f)]);
        }
    }
    r
}

/// The listing of local branches, parsed from the branch-listing query's
/// output: one name per line, trimmed, blanks removed.
pub fn get_branches(raw: &str) -> (r: Vec<String>)
    ensures
        r.deep_view() == parsed_items(raw@),
{
    parse_lines(raw)
}

/// The listing of conflicted files, parsed from the conflicted-file
/// query's output.  Recomputed from fresh output on every resolution
/// round; never cached.
pub fn get_conflicted_files(raw: &str) -> (r: Vec<String>)
    ensures
        r.deep_view() == parsed_items(raw@),
{
    parse_lines(raw)
}

/// Splits `s` at every occurrence of `sep`, keeping every field, empty
/// ones included.
pub fn split_str(s: &str, sep: char) -> (r: Vec<String>)
    ensures
        r.deep_view() == split_fields(s@, sep),
{
    let len = s.unicode_len();
    let mut r: Vec<String> = Vec::new();
    let mut start: usize = 0;
    let mut i: usize = 0;
    let ghost mut done: Seq<Seq<char>> = Seq::empty();
    proof {
        assert(split_fields(s@, sep) =~= done + split_fields(
            s@.subrange(0, s@.len() as int),
            sep,
        )) by {
            assert(s@.subrange(0, s@.len() as int) =~= s@);
        }
    }
    while i < len
        invariant
            start <= i <= len,
            len == s@.len(),
            split_fields(s@, sep) == done + split_fields(
                s@.subrange(start as int, len as int),
                sep,
            ),
            forall|k: int| start <= k < i ==> s@[k] != sep,
            r.deep_view() == done,
        decreases len - i,
    {
        if s.get_char(i) == sep {
            let piece = s.substring_char(start, i);
            let field = String::from_str(piece);
            let ghost f = s@.subrange(start as int, i as int);
            proof {
                let suffix = s@.subrange(start as int, len as int);
                let after = s@.subrange(i + 1, len as int);
                assert(suffix =~= f + seq![sep] + after);
                lemma_split_concat(f, after, sep);
                lemma_split_no_sep(f, sep);
                assert(split_fields(suffix, sep) == seq![f] + split_fields(after, sep));
                assert(done + split_fields(suffix, sep) =~= (done + seq![f]) + split_fields(
                    after,
                    sep,
                ));
            }
            let ghost prev = r.deep_view();
            r.push(field);
            proof {
                assert(r.deep_view() =~= prev + seq![f]);
                done = done + seq![f];
            }
            start = i + 1;
        }
        i += 1;
    }
    let piece = s.substring_char(start, len);
    let field = String::from_str(piece);
    let ghost f = s@.subrange(start as int, len as int);
    proof {
        lemma_split_no_sep(f, sep);
        assert(split_fields(s@, sep) == done + seq![f]);
    }
    let ghost prev = r.deep_view();
    r.push(field);
    proof {
        assert(r.deep_view() =~= prev + seq![f]);
    }
    r
}

/// The paths named by a zero-separated porcelain status report, one per
/// record.  A record carries its two-character status code, a space, then
/// the path; a rename record is followed by the old path as a record of
/// its own, which carries no new path and is skipped.  Records too short
/// to carry a path are skipped.
pub open spec fn status_paths(entries: Seq<Seq<char>>) -> Seq<Seq<char>>
    decreases entries.len(),
{
    if entries.len() == 0 {
        Seq::<Seq<char>>::empty()
    } else {
        let e = entries[0];
        if e.len() < 3 {
            status_paths(entries.drop_first())
        } else {
            let path = e.subrange(3, e.len() as int);
            let rest = if (e[0] == 'R' || e[1] == 'R') && entries.len() >= 2 {
                entries.drop_first().drop_first()
            } else {
                entries.drop_first()
            };
            seq![path] + status_paths(rest)
        }
    }
}

/// Parses a zero-separated porcelain status report into the listed paths,
/// in order, with each rename's old-path record skipped.
pub fn parse_status_entries(output: &str) -> (r: Vec<String>)
    ensures
        r.deep_view() == status_paths(split_fields(output@, '\0')),
{
    let entries = split_str(output, '\0');
    let mut r: Vec<String> = Vec::new();
    let mut i: usize = 0;
    proof {
        assert(entries.deep_view().skip(0) =~= entries.deep_view());
        assert(r.deep_view() =~= Seq::<Seq<char>>::empty());
    }
    while i < entries.len()
        invariant
            i <= entries@.len(),
            status_paths(entries.deep_view()) == r.deep_view() + status_paths(
                entries.deep_view().skip(i as int),
            ),
        decreases entries@.len() - i,
    {
        let e = &entries[i];
        let el = e.as_str().unicode_len();
        let ghost dv = entries.deep_view();
        proof {
            assert(dv.skip(i as int)[0] == dv[i as int]);
            assert(dv.skip(i as int).drop_first() =~= dv.skip(i + 1));
        }
        if el < 3 {
            i += 1;
        } else {
            let piece = e.as_str().substring_char(3, el);
            let path = String::from_str(piece);
            let is_rename = e.as_str().get_char(0) == 'R' || e.as_str().get_char(1) == 'R';
            let ghost prev = r.deep_view();
            r.push(path);
            proof {
                assert(r.deep_view() =~= prev + seq![dv[i as int].subrange(3, dv[i as int].len() as int)]);
            }
            if is_rename && i + 1 < entries.len() {
                proof {
                    assert(dv.skip(i as int).drop_first().drop_first() =~= dv.skip(i + 2));
                }
                i += 2;
            } else {
                i += 1;
            }
        }
    }
    proof {
        assert(entries.deep_view().skip(entries@.len() as int)
            =~= Seq::<Seq<char>>::empty());
    }
    r
}

/// The working tree is dirty exactly when the status report is non-blank.
pub fn is_dirty(status_output: &str) -> (r: bool)
    ensures
        r == !is_blank(status_output@),
{
    !crate::text::str_is_blank(status_output)
}

/// Gates destructive operations: succeeds exactly on a blank status
/// report, and fails with `DirtyWorkspace` otherwise.
pub fn ensure_clean(status_output: &str) -> (r: Result<(), WorkflowError>)
    ensures
        r is Ok <==> is_blank(status_output@),
        r matches Err(e) ==> e@ is DirtyWorkspace,
{
    if crate::text::str_is_blank(status_output) {
        Ok(())
    } else {
        Err(WorkflowError::DirtyWorkspace)
    }
}

} // verus!
