//! Splitting and joining path-list values such as `PATH`.
//!
//! A path-list is an ordered sequence of path strings joined by a single
//! separator character (`;` for the Windows command interpreter, `:`
//! everywhere else).  Splitting keeps empty segments, so an empty value holds
//! exactly one empty segment.

use crate::text::str_contains_char;
use vstd::prelude::*;
use vstd::string::{StrSliceExecFns, StringExecFns};

verus! {

/// A segment cannot stand in a path-list because it holds the separator
/// character itself, which the list syntax has no way to escape.
#[derive(Clone, Copy, Debug, PartialEq, Eq, Structural)]
pub struct JoinPathsError;

/// The segments encoded in the path-list `s`, split at every occurrence of
/// `sep`.  An empty `s` holds one empty segment.
pub open spec fn split_paths(s: Seq<char>, sep: char) -> Seq<Seq<char>>
    decreases s.len(),
{
    if s.len() == 0 {
        seq![Seq::<char>::empty()]
    } else if s.last() == sep {
        split_paths(s.drop_last(), sep).push(Seq::<char>::empty())
    } else {
        let r = split_paths(s.drop_last(), sep);
        r.update(r.len() - 1, r.last().push(s.last()))
    }
}

/// The path-list that holds `segments` in order, separated by `sep`.
pub open spec fn join_paths(segments: Seq<Seq<char>>, sep: char) -> Seq<char>
    decreases segments.len(),
{
    if segments.len() == 0 {
        Seq::<char>::empty()
    } else if segments.len() == 1 {
        segments[0]
    } else {
        join_paths(segments.drop_last(), sep) + seq![sep] + segments.last()
    }
}

/// A string without the separator splits into exactly one segment: itself.
pub proof fn lemma_split_no_separator(s: Seq<char>, sep: char)
    requires
        !s.contains(sep),
    ensures
        split_paths(s, sep) == seq![s],
    decreases s.len(),
{
    if s.len() == 0 {
        assert(s =~= Seq::<char>::empty());
    } else {
        assert(s.last() != sep) by {
            assert(s[s.len() - 1] == s.last());
        }
        assert(!s.drop_last().contains(sep)) by {
            assert forall|j: int| 0 <= j < s.drop_last().len() implies s.drop_last()[j] != sep by {
                assert(s.drop_last()[j] == s[j]);
            }
        }
        lemma_split_no_separator(s.drop_last(), sep);
        assert(s.drop_last().push(s.last()) =~= s);
        assert(split_paths(s, sep) =~= seq![s]);
    }
}

/// Appending a separator and then a separator-free tail `b` to a path-list
/// adds exactly one segment, `b`, to its split.
pub proof fn lemma_split_append(a: Seq<char>, b: Seq<char>, sep: char)
    requires
        !b.contains(sep),
    ensures
        split_paths(a + seq![sep] + b, sep) == split_paths(a, sep).push(b),
    decreases b.len(),
{
    let t = a + seq![sep] + b;
    if b.len() == 0 {
        assert(t =~= a.push(sep));
        assert(t.drop_last() =~= a);
        assert(b =~= Seq::<char>::empty());
        assert(split_paths(t, sep) == split_paths(a, sep).push(b));
    } else {
        let shorter = a + seq![sep] + b.drop_last();
        assert(t =~= shorter.push(b.last()));
        assert(b.last() != sep) by {
            assert(b[b.len() - 1] == b.last());
        }
        assert(!b.drop_last().contains(sep)) by {
            assert forall|j: int| 0 <= j < b.drop_last().len() implies b.drop_last()[j] != sep by {
                assert(b.drop_last()[j] == b[j]);
            }
        }
        lemma_split_append(a, b.drop_last(), sep);
        assert(t.drop_last() =~= shorter);
        let r = split_paths(t.drop_last(), sep);
        assert(r == split_paths(a, sep).push(b.drop_last()));
        assert(r.last() == b.drop_last());
        assert(b.drop_last().push(b.last()) =~= b);
        assert(split_paths(t, sep) == r.update(r.len() - 1, b));
        assert(r.update(r.len() - 1, b) =~= split_paths(a, sep).push(b));
    }
}

/// Round trip: joining one or more separator-free segments and splitting the
/// result gives back exactly the original segments, in order.  (The empty
/// segment list is left out: it joins to the empty string, which splits into
/// one empty segment.)
pub proof fn lemma_join_split_roundtrip(segments: Seq<Seq<char>>, sep: char)
    requires
        segments.len() > 0,
        forall|i: int| 0 <= i < segments.len() ==> !(#[trigger] segments[i]).contains(sep),
    ensures
        split_paths(join_paths(segments, sep), sep) == segments,
    decreases segments.len(),
{
    if segments.len() == 1 {
        assert(!segments[0].contains(sep));
        lemma_split_no_separator(segments[0], sep);
        assert(seq![segments[0]] =~= segments);
    } else {
        assert forall|i: int| 0 <= i < segments.drop_last().len() implies !(
        #[trigger] segments.drop_last()[i]).contains(sep) by {
            assert(segments.drop_last()[i] == segments[i]);
        }
        assert(segments.last() == segments[segments.len() - 1]);
        lemma_join_split_roundtrip(segments.drop_last(), sep);
        lemma_split_append(join_paths(segments.drop_last(), sep), segments.last(), sep);
        assert(segments.drop_last().push(segments.last()) =~= segments);
    }
}

/// Splits `s` at every occurrence of `sep` into owned segments.
pub(crate) fn split_paths_exec(s: &str, sep: char) -> (r: Vec<String>)
    ensures
        r.deep_view() == split_paths(s@, sep),
{
    let n: usize = s.unicode_len();
    let mut parts: Vec<String> = Vec::new();
    let mut start: usize = 0;
    let mut i: usize = 0;
    proof {
        assert(s@.take(0) =~= Seq::<char>::empty());
        assert(s@.subrange(0, 0) =~= Seq::<char>::empty());
        assert(parts.deep_view().push(s@.subrange(0, 0)) =~~= split_paths(s@.take(0), sep));
    }
    while i < n
        invariant
            n == s@.len(),
            start <= i <= n,
            parts.deep_view().push(s@.subrange(start as int, i as int)) == split_paths(
                s@.take(i as int),
                sep,
            ),
        decreases n - i,
    {
        let ghost prefix = s@.take(i as int);
        let ghost prefix1 = s@.take(i + 1);
        proof {
            assert(prefix1.drop_last() =~= prefix);
            assert(prefix1.last() == s@[i as int]);
        }
        let c = s.get_char(i);
        if c == sep {
            let ghost old_parts = parts.deep_view();
            let ghost old_start = start as int;
            let piece = s.substring_char(start, i);
            parts.push(piece.to_owned());
            start = i + 1;
            proof {
                assert(parts.deep_view() =~~= old_parts.push(s@.subrange(
                    old_start,
                    i as int,
                )));
                assert(s@.subrange(start as int, i + 1) =~= Seq::<char>::empty());
                assert(parts.deep_view().push(s@.subrange(start as int, i + 1)) =~~= split_paths(
                    prefix1,
                    sep,
                ));
            }
        } else {
            proof {
                let r0 = split_paths(prefix, sep);
                assert(r0 == parts.deep_view().push(s@.subrange(start as int, i as int)));
                assert(r0.last() == s@.subrange(start as int, i as int));
                assert(split_paths(prefix1, sep) == r0.update(
                    r0.len() - 1,
                    r0.last().push(s@[i as int]),
                ));
                assert(s@.subrange(start as int, i as int).push(s@[i as int]) =~= s@.subrange(
                    start as int,
                    i + 1,
                ));
                assert(r0.update(r0.len() - 1, r0.last().push(s@[i as int])) =~~= parts.deep_view()
                    .push(s@.subrange(start as int, i + 1)));
            }
        }
        i += 1;
    }
    let ghost old_parts = parts.deep_view();
    let piece = s.substring_char(start, n);
    parts.push(piece.to_owned());
    proof {
        assert(parts.deep_view() =~~= old_parts.push(s@.subrange(start as int, n as int)));
        assert(s@.take(n as int) =~= s@);
    }
    parts
}

/// Joins `segments` with `sep`, or reports the error when some segment holds
/// the separator itself.  `sep_str` is the same separator as a string slice.
pub(crate) fn join_paths_exec(segments: &Vec<String>, sep: char, sep_str: &str) -> (r: Result<
    String,
    JoinPathsError,
>)
    requires
        sep_str@ == seq![sep],
    ensures
        (r is Ok) <==> (forall|i: int|
            0 <= i < segments.deep_view().len() ==> !(#[trigger] segments.deep_view()[i]).contains(
                sep,
            )),
        r matches Ok(joined) ==> joined@ == join_paths(segments.deep_view(), sep),
{
    let ghost segs = segments.deep_view();
    let n: usize = segments.len();
    let mut joined = String::new();
    let mut i: usize = 0;
    proof {
        assert(segs.take(0) =~= Seq::<Seq<char>>::empty());
    }
    while i < n
        invariant
            n == segments@.len(),
            segs == segments.deep_view(),
            i <= n,
            joined@ == join_paths(segs.take(i as int), sep),
            forall|j: int| 0 <= j < i ==> !(#[trigger] segs[j]).contains(sep),
            sep_str@ == seq![sep],
        decreases n - i,
    {
        let seg: &String = &segments[i];
        proof {
            assert(seg@ == segs[i as int]);
        }
        if str_contains_char(seg.as_str(), sep) {
            proof {
                assert(segs[i as int].contains(sep));
            }
            return Err(JoinPathsError);
        }
        let ghost prefix1 = segs.take(i + 1);
        proof {
            assert(prefix1.drop_last() =~= segs.take(i as int));
            assert(prefix1.last() == segs[i as int]);
        }
        if i > 0 {
            joined.append(sep_str);
        } else {
            proof {
                assert(joined@ =~= Seq::<char>::empty());
            }
        }
        joined.append(seg.as_str());
        proof {
            if i == 0 {
                assert(joined@ =~= segs[0]);
                assert(prefix1.len() == 1);
                assert(prefix1[0] == segs[0]);
            } else {
                assert(joined@ == join_paths(segs.take(i as int), sep) + seq![sep]
                    + segs[i as int]);
            }
        }
        i += 1;
    }
    proof {
        assert(segs.take(n as int) =~= segs);
    }
    Ok(joined)
}

} // verus!
