//! Dot-separated paths: the specification of splitting and a verified
//! splitter. A path names a position in a document by successive object-key
//! descent; consecutive, leading or trailing dots simply yield empty
//! segments, which are looked up like any other key.

use vstd::prelude::*;
use vstd::string::*;

verus! {

/// The segments of `s` split on `'.'`: always at least one segment, and an
/// empty text gives one empty segment, exactly as Rust's `split('.')` does.
pub open spec fn split_on_dot(s: Seq<char>) -> Seq<Seq<char>>
    decreases s.len(),
{
    if s.len() == 0 {
        seq![Seq::<char>::empty()]
    } else if s[0] == '.' {
        seq![Seq::<char>::empty()] + split_on_dot(s.drop_first())
    } else {
        let rest = split_on_dot(s.drop_first());
        seq![seq![s[0]] + rest[0]] + rest.drop_first()
    }
}

/// The views of a vector of segments.
pub open spec fn seg_models(segs: Seq<String>) -> Seq<Seq<char>> {
    segs.map_values(|t: String| t@)
}

/// Splitting yields at least one segment.
pub proof fn lemma_split_nonempty(s: Seq<char>)
    ensures
        split_on_dot(s).len() >= 1,
    decreases s.len(),
{
    if s.len() == 0 {
    } else if s[0] == '.' {
        lemma_split_nonempty(s.drop_first());
    } else {
        lemma_split_nonempty(s.drop_first());
    }
}

/// A dot-free prefix extends the first segment of whatever follows it.
pub proof fn lemma_split_prefix(p: Seq<char>, rest: Seq<char>)
    requires
        forall|j: int| 0 <= j < p.len() ==> p[j] != '.',
    ensures
        split_on_dot(p + rest) == seq![p + split_on_dot(rest)[0]] + split_on_dot(
            rest,
        ).drop_first(),
    decreases p.len(),
{
    lemma_split_nonempty(rest);
    let q = split_on_dot(rest);
    if p.len() == 0 {
        assert(p + rest =~= rest);
        assert(p + q[0] =~= q[0]);
        assert(split_on_dot(rest) =~~= seq![q[0]] + q.drop_first());
        assert(split_on_dot(p + rest) =~~= seq![p + q[0]] + q.drop_first());
    } else {
        let s = p + rest;
        assert(s[0] == p[0]);
        assert(s.drop_first() =~= p.drop_first() + rest);
        lemma_split_prefix(p.drop_first(), rest);
        let r = split_on_dot(s.drop_first());
        assert(r =~~= seq![p.drop_first() + q[0]] + q.drop_first());
        assert(r[0] == p.drop_first() + q[0]);
        assert(seq![s[0]] + r[0] =~= p + q[0]);
        assert(r.drop_first() =~~= q.drop_first());
        assert(split_on_dot(s) =~~= seq![p + q[0]] + q.drop_first());
    }
}

/// A dot-free text is a single segment.
pub proof fn lemma_split_dot_free(p: Seq<char>)
    requires
        forall|j: int| 0 <= j < p.len() ==> p[j] != '.',
    ensures
        split_on_dot(p) == seq![p],
{
    lemma_split_prefix(p, Seq::<char>::empty());
    assert(p + Seq::<char>::empty() =~= p);
    assert(p + split_on_dot(Seq::<char>::empty())[0] =~= p);
    assert(split_on_dot(p) =~~= seq![p]);
}

/// A dot after a dot-free prefix closes the prefix as one segment.
pub proof fn lemma_split_at_dot(p: Seq<char>, tail: Seq<char>)
    requires
        forall|j: int| 0 <= j < p.len() ==> p[j] != '.',
    ensures
        split_on_dot(p + seq!['.'] + tail) == seq![p] + split_on_dot(tail),
{
    let dotted = seq!['.'] + tail;
    assert(dotted[0] == '.');
    assert(dotted.drop_first() =~= tail);
    assert(split_on_dot(dotted) =~~= seq![Seq::<char>::empty()] + split_on_dot(tail));
    lemma_split_prefix(p, dotted);
    assert(p + dotted =~= p + seq!['.'] + tail);
    let q = split_on_dot(dotted);
    assert(q[0] =~= Seq::<char>::empty());
    assert(p + q[0] =~= p);
    assert(q.drop_first() =~~= split_on_dot(tail));
    lemma_split_nonempty(tail);
    assert(split_on_dot(p + seq!['.'] + tail) =~~= seq![p] + split_on_dot(tail));
}

/// Split `path` on dots, yielding exactly the segments of `split_on_dot`.
pub fn split_path(path: &str) -> (segs: Vec<String>)
    ensures
        seg_models(segs@) == split_on_dot(path@),
{
    let n = path.unicode_len();
    let mut segs: Vec<String> = Vec::new();
    let mut start: usize = 0;
    let mut i: usize = 0;
    proof {
        assert(path@.subrange(0, n as int) =~= path@);
        assert(seg_models(segs@) =~~= Seq::<Seq<char>>::empty());
        assert(seg_models(segs@) + split_on_dot(path@) =~~= split_on_dot(path@));
    }
    while i < n
        invariant
            n == path@.len(),
            start <= i <= n,
            forall|j: int| start <= j < i ==> path@[j] != '.',
            split_on_dot(path@) == seg_models(segs@) + split_on_dot(
                path@.subrange(start as int, n as int),
            ),
        decreases n - i,
    {
        let c = path.get_char(i);
        if c == '.' {
            let seg = path.substring_char(start, i).to_owned();
            proof {
                let p = path@.subrange(start as int, i as int);
                let tail = path@.subrange(i + 1, n as int);
                assert(path@.subrange(start as int, n as int) =~= p + seq!['.'] + tail);
                lemma_split_at_dot(p, tail);
                assert(seg_models(segs@.push(seg)) =~~= seg_models(segs@).push(p));
                assert(seg_models(segs@) + (seq![p] + split_on_dot(tail)) =~~= seg_models(
                    segs@.push(seg),
                ) + split_on_dot(tail));
            }
            segs.push(seg);
            start = i + 1;
        }
        i = i + 1;
    }
    let last = path.substring_char(start, n).to_owned();
    proof {
        let p = path@.subrange(start as int, n as int);
        lemma_split_dot_free(p);
        assert(seg_models(segs@.push(last)) =~~= seg_models(segs@).push(p));
        assert(seg_models(segs@) + seq![p] =~~= seg_models(segs@.push(last)));
    }
    segs.push(last);
    segs
}

} // verus!
