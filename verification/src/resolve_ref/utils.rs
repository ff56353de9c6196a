use vstd::prelude::*;

verus! {

/// The text `s` without a leading `#/`, where it has one.
pub open spec fn strip_fragment_prefix(s: Seq<char>) -> Seq<char> {
    if s.len() >= 2 && s[0] == '#' && s[1] == '/' {
        s.skip(2)
    } else {
        s
    }
}

/// The pieces of `s` between its `/` characters, in order.
///
/// A text without `/` is one piece; `n` separators give `n + 1` pieces, some
/// of which may be empty.
pub open spec fn split_segments(s: Seq<char>) -> Seq<Seq<char>>
    decreases s.len(),
{
    if s.len() == 0 {
        seq![Seq::<char>::empty()]
    } else {
        let before = split_segments(s.drop_last());
        if s.last() == '/' {
            before.push(Seq::<char>::empty())
        } else {
            before.update(before.len() - 1, before.last().push(s.last()))
        }
    }
}

/// The path segments that a pointer text denotes.
pub open spec fn ref_segments(reference: Seq<char>) -> Seq<Seq<char>> {
    split_segments(strip_fragment_prefix(reference))
}

/// The views of the strings of `parts`, in order.
pub open spec fn segment_views(parts: Seq<String>) -> Seq<Seq<char>> {
    Seq::new(parts.len(), |i: int| parts[i]@)
}

/// The text that `parts` make when a `/` is put between each two of them.
pub open spec fn join_segments(parts: Seq<Seq<char>>) -> Seq<char>
    decreases parts.len(),
{
    if parts.len() == 0 {
        Seq::<char>::empty()
    } else if parts.len() == 1 {
        parts[0]
    } else {
        join_segments(parts.drop_last()) + seq!['/'] + parts.last()
    }
}

/// Splitting loses nothing and cuts at every separator: the segments of a
/// text, joined by `/`, are the text again, and no segment holds a `/`.
pub proof fn law_segments_partition(s: Seq<char>)
    ensures
        split_segments(s).len() >= 1,
        join_segments(split_segments(s)) == s,
        forall|i: int|
            0 <= i < split_segments(s).len() ==> !(#[trigger] split_segments(s)[i]).contains('/'),
    decreases s.len(),
{
    let parts = split_segments(s);
    if s.len() == 0 {
        assert(parts[0] =~= Seq::<char>::empty());
        assert(join_segments(parts) =~= s);
    } else {
        let before = split_segments(s.drop_last());
        law_segments_partition(s.drop_last());
        let c = s.last();
        if c == '/' {
            assert(parts.drop_last() =~= before);
            assert(join_segments(parts) =~= s.drop_last().push(c));
            assert(s.drop_last().push(c) =~= s);
        } else {
            let grown = before.last().push(c);
            if before.len() == 1 {
                assert(join_segments(parts) =~= s.drop_last().push(c));
            } else {
                assert(parts.drop_last() =~= before.drop_last());
                assert(join_segments(parts) =~= join_segments(before.drop_last()) + seq!['/']
                    + grown);
                assert(join_segments(parts) =~= s.drop_last().push(c));
            }
            assert(s.drop_last().push(c) =~= s);
            assert forall|i: int| 0 <= i < parts.len() implies !(#[trigger] parts[i]).contains(
                '/',
            ) by {
                if i == parts.len() - 1 {
                    assert(!before.last().contains('/'));
                    assert forall|k: int| 0 <= k < grown.len() implies grown[k] != '/' by {
                        if k < before.last().len() {
                            assert(before.last().contains(grown[k]));
                        }
                    }
                } else {
                    assert(parts[i] == before[i]);
                }
            }
        }
        assert forall|i: int| 0 <= i < parts.len() implies !(#[trigger] parts[i]).contains(
            '/',
        ) by {
            if c == '/' {
                if i < before.len() {
                    assert(parts[i] == before[i]);
                } else {
                    assert(parts[i] =~= Seq::<char>::empty());
                }
            }
        }
    }
}

/// Whether two texts hold the same characters.
pub fn same_text(a: &str, b: &str) -> (same: bool)
    ensures
        same == (a@ == b@),
{
    let n = a.unicode_len();
    if b.unicode_len() != n {
        return false;
    }
    let mut i: usize = 0;
    while i < n
        invariant
            n == a@.len(),
            n == b@.len(),
            i <= n,
            forall|j: int| 0 <= j < i ==> a@[j] == b@[j],
        decreases n - i,
    {
        if a.get_char(i) != b.get_char(i) {
            return false;
        }
        i = i + 1;
    }
    assert(a@ =~= b@);
    true
}

/// Parse a reference string into its path segments.
///
/// A leading `#/` is dropped, once, and the rest is cut at each `/`. No
/// segment is checked or decoded, so the call never fails.
pub fn parse_ref(reference: &str) -> (parts: Vec<String>)
    ensures
        segment_views(parts@) == ref_segments(reference@),
{
    let n = reference.unicode_len();
    let start: usize = if n >= 2 && reference.get_char(0) == '#' && reference.get_char(1) == '/' {
        2
    } else {
        0
    };
    let ghost body = reference@.skip(start as int);
    assert(strip_fragment_prefix(reference@) =~= body);

    let mut parts: Vec<String> = Vec::new();
    let mut seg_start: usize = start;
    let mut i: usize = start;
    proof {
        assert(body.take(0) =~= Seq::<char>::empty());
        assert(reference@.subrange(start as int, start as int) =~= Seq::<char>::empty());
        assert(segment_views(parts@).push(Seq::<char>::empty()) =~= seq![Seq::<char>::empty()]);
    }
    while i < n
        invariant
            n == reference@.len(),
            start <= seg_start <= i <= n,
            body == reference@.skip(start as int),
            segment_views(parts@).push(reference@.subrange(seg_start as int, i as int))
                == split_segments(body.take(i - start)),
        decreases n - i,
    {
        let ghost prefix = body.take(i - start);
        let ghost next = body.take(i + 1 - start);
        proof {
            assert(next.drop_last() =~= prefix);
            assert(next.last() == reference@[i as int]);
            law_segments_partition(prefix);
        }
        if reference.get_char(i) == '/' {
            let piece = reference.substring_char(seg_start, i).to_owned();
            parts.push(piece);
            seg_start = i + 1;
            proof {
                assert(reference@.subrange(seg_start as int, i + 1) =~= Seq::<char>::empty());
                assert(segment_views(parts@).push(Seq::<char>::empty()) =~= split_segments(next));
            }
        } else {
            proof {
                assert(reference@.subrange(seg_start as int, i + 1) =~= reference@.subrange(
                    seg_start as int,
                    i as int,
                ).push(reference@[i as int]));
                assert(segment_views(parts@).push(reference@.subrange(seg_start as int, i + 1))
                    =~= split_segments(next));
            }
        }
        i = i + 1;
    }
    proof {
        assert(body.take(n - start) =~= body);
    }
    let piece = reference.substring_char(seg_start, n).to_owned();
    parts.push(piece);
    proof {
        assert(segment_views(parts@) =~= split_segments(body));
    }
    parts
}

} // verus!
