//! The stream relay, modelled on bytes: a captured child stream is relayed
//! line by line, where a line is the bytes up to and including a terminator,
//! or the final partial line at end of stream.  The round-trip law below
//! states that relaying the lines of a stream in order reproduces the
//! stream exactly.

use vstd::prelude::*;

verus! {

/// The line terminator byte.
pub open spec fn spec_terminator() -> u8 {
    10
}

/// The index of the first terminator in `s`, or `-1` when `s` holds none.
pub open spec fn spec_first_newline(s: Seq<u8>) -> int
    decreases s.len(),
{
    if s.len() == 0 {
        -1
    } else if s[0] == spec_terminator() {
        0
    } else {
        let r = spec_first_newline(s.drop_first());
        if r < 0 {
            -1
        } else {
            r + 1
        }
    }
}

/// The lines of a stream: each maximal chunk up to and including a
/// terminator, with a final partial line when the stream does not end in
/// one.  An empty stream has no lines.
pub open spec fn spec_split_lines(s: Seq<u8>) -> Seq<Seq<u8>>
    decreases s.len(),
{
    if s.len() == 0 {
        Seq::empty()
    } else {
        let k = spec_first_newline(s);
        if 0 <= k < s.len() {
            seq![s.subrange(0, k + 1)] + spec_split_lines(s.subrange(k + 1, s.len() as int))
        } else {
            seq![s]
        }
    }
}

/// The views of a vector of byte lines.
pub open spec fn spec_views(lines: Seq<Vec<u8>>) -> Seq<Seq<u8>> {
    lines.map_values(|l: Vec<u8>| l@)
}

/// The first terminator sits inside the stream, on a terminator, with none
/// before it; and a stream without a terminator reports none.
pub proof fn lemma_first_newline_bounds(s: Seq<u8>)
    ensures
        -1 <= spec_first_newline(s) < s.len(),
        spec_first_newline(s) >= 0 ==> s[spec_first_newline(s)] == spec_terminator(),
        spec_first_newline(s) >= 0 ==> forall|j: int|
            0 <= j < spec_first_newline(s) ==> s[j] != spec_terminator(),
        spec_first_newline(s) < 0 ==> forall|j: int|
            0 <= j < s.len() ==> s[j] != spec_terminator(),
    decreases s.len(),
{
    if s.len() > 0 && s[0] != spec_terminator() {
        let d = s.drop_first();
        lemma_first_newline_bounds(d);
        let r = spec_first_newline(d);
        if r >= 0 {
            assert forall|j: int| 0 <= j < r + 1 implies s[j] != spec_terminator() by {
                if j > 0 {
                    assert(d[j - 1] != spec_terminator());
                }
            }
            assert(s[r + 1] == d[r]);
        } else {
            assert forall|j: int| 0 <= j < s.len() implies s[j] != spec_terminator() by {
                if j > 0 {
                    assert(d[j - 1] != spec_terminator());
                }
            }
        }
    }
}

/// A stream without a terminator reports no first terminator.
pub proof fn lemma_first_newline_none(s: Seq<u8>)
    requires
        forall|j: int| 0 <= j < s.len() ==> s[j] != spec_terminator(),
    ensures
        spec_first_newline(s) == -1,
{
    lemma_first_newline_bounds(s);
}

/// Prepending terminator-free bytes shifts the first terminator by their
/// count.
pub proof fn lemma_first_newline_after_clean_prefix(pre: Seq<u8>, s: Seq<u8>)
    requires
        forall|j: int| 0 <= j < pre.len() ==> pre[j] != spec_terminator(),
        s.len() > 0,
        s[0] == spec_terminator(),
    ensures
        spec_first_newline(pre + s) == pre.len(),
    decreases pre.len(),
{
    if pre.len() == 0 {
        assert(pre + s =~= s);
    } else {
        lemma_first_newline_after_clean_prefix(pre.drop_first(), s);
        assert((pre + s).drop_first() =~= pre.drop_first() + s);
        assert((pre + s)[0] == pre[0]);
    }
}

/// Law (round trip): joining the lines of a stream, in order, reproduces
/// the stream exactly — no line dropped, duplicated, or reordered.
pub proof fn lemma_split_lines_round_trip(s: Seq<u8>)
    ensures
        spec_split_lines(s).flatten() == s,
    decreases s.len(),
{
    if s.len() == 0 {
        assert(spec_split_lines(s).flatten() =~= s);
    } else {
        let k = spec_first_newline(s);
        lemma_first_newline_bounds(s);
        if 0 <= k < s.len() {
            let head = s.subrange(0, k + 1);
            let tail = s.subrange(k + 1, s.len() as int);
            lemma_split_lines_round_trip(tail);
            let parts = seq![head] + spec_split_lines(tail);
            assert(parts.first() == head);
            assert(parts.drop_first() =~= spec_split_lines(tail));
            assert(parts.flatten() == head + spec_split_lines(tail).flatten());
            assert(head + tail =~= s);
        } else {
            let parts = seq![s];
            parts.lemma_flatten_one_element();
            assert(parts.first() == s);
        }
    }
}

/// Law (line shape): every line of a stream is nonempty, every line but the
/// last ends with the terminator, and no line holds a terminator before its
/// last byte — a line is relayed whole, never split or merged.
pub proof fn lemma_split_lines_well_formed(s: Seq<u8>, i: int)
    requires
        0 <= i < spec_split_lines(s).len(),
    ensures
        spec_split_lines(s)[i].len() > 0,
        i < spec_split_lines(s).len() - 1 ==> spec_split_lines(s)[i].last() == spec_terminator(),
        forall|j: int|
            0 <= j < spec_split_lines(s)[i].len() - 1 ==> spec_split_lines(s)[i][j]
                != spec_terminator(),
    decreases s.len(),
{
    let k = spec_first_newline(s);
    lemma_first_newline_bounds(s);
    if 0 <= k < s.len() {
        let head = s.subrange(0, k + 1);
        let tail = s.subrange(k + 1, s.len() as int);
        let parts = seq![head] + spec_split_lines(tail);
        if i == 0 {
            assert(parts[0] == head);
            assert(head.len() == k + 1);
            assert(head.last() == s[k]);
            assert(forall|j: int| 0 <= j < head.len() - 1 ==> head[j] == s[j]);
        } else {
            lemma_split_lines_well_formed(tail, i - 1);
            assert(parts[i] == spec_split_lines(tail)[i - 1]);
        }
    } else {
        assert(spec_split_lines(s)[i] == s);
    }
}

/// Splits a captured stream into the lines the relay writes: each line is
/// the bytes up to and including a terminator, with a final partial line
/// when the stream does not end in one.
pub fn split_lines(bytes: &Vec<u8>) -> (lines: Vec<Vec<u8>>)
    ensures
        spec_views(lines@) == spec_split_lines(bytes@),
{
    let ghost all = bytes@;
    let mut lines: Vec<Vec<u8>> = Vec::new();
    let mut cur: Vec<u8> = Vec::new();
    let mut i: usize = 0;
    proof {
        assert(cur@ + all.subrange(0, all.len() as int) =~= all);
        assert(spec_views(lines@) =~= Seq::<Seq<u8>>::empty());
        assert(spec_views(lines@) + spec_split_lines(all) =~= spec_split_lines(all));
    }
    while i < bytes.len()
        invariant
            all == bytes@,
            i <= all.len(),
            forall|j: int| 0 <= j < cur@.len() ==> cur@[j] != spec_terminator(),
            spec_split_lines(all) == spec_views(lines@) + spec_split_lines(
                cur@ + all.subrange(i as int, all.len() as int),
            ),
        decreases all.len() - i,
    {
        let ghost rest = all.subrange(i as int, all.len() as int);
        let ghost old_cur = cur@;
        let ghost old_lines = lines@;
        let b = bytes[i];
        cur.push(b);
        if b == 10 {
            proof {
                let tail = all.subrange(i as int + 1, all.len() as int);
                lemma_first_newline_after_clean_prefix(old_cur, rest);
                assert(old_cur + rest =~= cur@ + tail);
                let joined = old_cur + rest;
                assert(spec_first_newline(joined) == old_cur.len());
                assert(joined.subrange(0, old_cur.len() as int + 1) =~= cur@);
                assert(joined.subrange(old_cur.len() as int + 1, joined.len() as int) =~= tail);
                assert(spec_split_lines(joined) == seq![cur@] + spec_split_lines(tail));
                assert(spec_views(old_lines.push(cur)) =~= spec_views(old_lines) + seq![cur@]);
                assert(spec_views(old_lines) + (seq![cur@] + spec_split_lines(tail)) =~= (
                spec_views(old_lines) + seq![cur@]) + spec_split_lines(tail));
            }
            lines.push(cur);
            cur = Vec::new();
            proof {
                let tail = all.subrange(i as int + 1, all.len() as int);
                assert(cur@ + tail =~= tail);
            }
        } else {
            proof {
                assert(old_cur + rest =~= cur@ + all.subrange(i as int + 1, all.len() as int));
            }
        }
        i = i + 1;
    }
    proof {
        assert(cur@ + all.subrange(i as int, all.len() as int) =~= cur@);
    }
    if cur.len() > 0 {
        proof {
            lemma_first_newline_none(cur@);
            assert(spec_split_lines(cur@) == seq![cur@]);
            assert(spec_views(lines@.push(cur)) =~= spec_views(lines@) + seq![cur@]);
        }
        lines.push(cur);
    } else {
        proof {
            assert(spec_split_lines(cur@) =~= Seq::<Seq<u8>>::empty());
            assert(spec_views(lines@) + Seq::<Seq<u8>>::empty() =~= spec_views(lines@));
        }
    }
    lines
}

} // verus!
