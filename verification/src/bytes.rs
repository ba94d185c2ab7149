//! Byte-sequence helpers shared by the token and assertion logic: equality,
//! concatenation, and splitting a byte string on a separator.

use vstd::prelude::*;

verus! {

/// True when `sep` occurs nowhere in `s`.
pub open spec fn sep_free(s: Seq<u8>, sep: u8) -> bool {
    forall|j: int| 0 <= j < s.len() ==> s[j] != sep
}

/// The pieces of `s` between occurrences of `sep`: splitting on every
/// occurrence, so `n` separators give `n + 1` pieces (possibly empty).
pub open spec fn split_on(s: Seq<u8>, sep: u8) -> Seq<Seq<u8>>
    decreases s.len(),
{
    if s.len() == 0 {
        seq![Seq::<u8>::empty()]
    } else if s[0] == sep {
        seq![Seq::<u8>::empty()] + split_on(s.drop_first(), sep)
    } else {
        let rest = split_on(s.drop_first(), sep);
        seq![seq![s[0]] + rest[0]] + rest.drop_first()
    }
}

pub proof fn lemma_split_on_len(s: Seq<u8>, sep: u8)
    ensures
        split_on(s, sep).len() >= 1,
    decreases s.len(),
{
    if s.len() != 0 {
        lemma_split_on_len(s.drop_first(), sep);
    }
}

/// A separator-free string is a single piece.
pub proof fn lemma_split_on_sep_free(s: Seq<u8>, sep: u8)
    requires
        sep_free(s, sep),
    ensures
        split_on(s, sep) =~~= seq![s],
    decreases s.len(),
{
    if s.len() != 0 {
        assert(forall|j: int| 0 <= j < s.len() - 1 ==> s.drop_first()[j] == s[j + 1]);
        lemma_split_on_sep_free(s.drop_first(), sep);
        assert(seq![s[0]] + s.drop_first() =~= s);
    }
}

/// Splitting `a ++ sep ++ b` where `a` is separator-free yields `a` and then
/// the pieces of `b`.
pub proof fn lemma_split_on_append(a: Seq<u8>, b: Seq<u8>, sep: u8)
    requires
        sep_free(a, sep),
    ensures
        split_on(a + seq![sep] + b, sep) =~~= seq![a] + split_on(b, sep),
    decreases a.len(),
{
    let s = a + seq![sep] + b;
    if a.len() == 0 {
        assert(s[0] == sep);
        assert(s.drop_first() =~= b);
    } else {
        assert(s[0] == a[0] && a[0] != sep);
        assert(s.drop_first() =~= a.drop_first() + seq![sep] + b);
        assert(forall|j: int| 0 <= j < a.len() - 1 ==> a.drop_first()[j] == a[j + 1]);
        lemma_split_on_append(a.drop_first(), b, sep);
        let rest = split_on(s.drop_first(), sep);
        lemma_split_on_len(b, sep);
        assert(rest[0] == a.drop_first());
        assert(seq![s[0]] + rest[0] =~= a);
    }
}

/// How many times `sep` occurs in `s`.
pub open spec fn count_sep(s: Seq<u8>, sep: u8) -> nat
    decreases s.len(),
{
    if s.len() == 0 {
        0
    } else if s[0] == sep {
        1 + count_sep(s.drop_first(), sep)
    } else {
        count_sep(s.drop_first(), sep)
    }
}

/// `n` separators give `n + 1` pieces.
pub proof fn lemma_split_on_count(s: Seq<u8>, sep: u8)
    ensures
        split_on(s, sep).len() == count_sep(s, sep) + 1,
    decreases s.len(),
{
    if s.len() != 0 {
        lemma_split_on_count(s.drop_first(), sep);
    }
}

/// The pieces joined back with the separator between them.
pub open spec fn join_pieces(ps: Seq<Seq<u8>>, sep: u8) -> Seq<u8>
    decreases ps.len(),
{
    if ps.len() == 0 {
        Seq::empty()
    } else if ps.len() == 1 {
        ps[0]
    } else {
        ps[0] + seq![sep] + join_pieces(ps.drop_first(), sep)
    }
}

/// Splitting is undone by joining, and each piece is separator-free.
pub proof fn lemma_split_on_structure(s: Seq<u8>, sep: u8)
    ensures
        join_pieces(split_on(s, sep), sep) =~= s,
        forall|k: int|
            0 <= k < split_on(s, sep).len() ==> sep_free(#[trigger] split_on(s, sep)[k], sep),
    decreases s.len(),
{
    if s.len() == 0 {
    } else if s[0] == sep {
        lemma_split_on_structure(s.drop_first(), sep);
        lemma_split_on_len(s.drop_first(), sep);
        let ps = split_on(s, sep);
        let rest = split_on(s.drop_first(), sep);
        assert(ps.drop_first() =~= rest);
        assert(join_pieces(ps, sep) =~= Seq::<u8>::empty() + seq![sep] + join_pieces(rest, sep));
        assert(seq![s[0]] + s.drop_first() =~= s);
    } else {
        lemma_split_on_structure(s.drop_first(), sep);
        lemma_split_on_len(s.drop_first(), sep);
        let ps = split_on(s, sep);
        let rest = split_on(s.drop_first(), sep);
        assert(ps[0] == seq![s[0]] + rest[0]);
        if rest.len() == 1 {
            assert(ps =~= seq![seq![s[0]] + rest[0]]);
            assert(join_pieces(ps, sep) == ps[0]);
            assert(join_pieces(rest, sep) == rest[0]);
            assert(seq![s[0]] + rest[0] =~= seq![s[0]] + s.drop_first());
            assert(seq![s[0]] + s.drop_first() =~= s);
        } else {
            assert(ps.drop_first() =~= rest.drop_first());
            assert(ps.len() >= 2);
            assert(join_pieces(ps, sep) == ps[0] + seq![sep] + join_pieces(
                ps.drop_first(),
                sep,
            ));
            assert(join_pieces(rest, sep) == rest[0] + seq![sep] + join_pieces(
                rest.drop_first(),
                sep,
            ));
            assert(seq![s[0]] + (rest[0] + seq![sep] + join_pieces(rest.drop_first(), sep)) =~= (
            seq![s[0]] + rest[0]) + seq![sep] + join_pieces(ps.drop_first(), sep));
            assert(seq![s[0]] + s.drop_first() =~= s);
        }
        assert forall|k: int| 0 <= k < ps.len() implies sep_free(#[trigger] ps[k], sep) by {
            if k == 0 {
                assert(forall|j: int|
                    0 <= j < rest[0].len() ==> (seq![s[0]] + rest[0])[j + 1] == rest[0][j]);
            } else {
                assert(ps[k] == rest[k]);
            }
        }
    }
}

pub proof fn lemma_count_sep_push(s: Seq<u8>, x: u8, sep: u8)
    ensures
        count_sep(s.push(x), sep) == count_sep(s, sep) + if x == sep {
            1nat
        } else {
            0nat
        },
    decreases s.len(),
{
    let t = s.push(x);
    assert(t.len() == s.len() + 1);
    assert(count_sep(t, sep) == (if t[0] == sep {
        1nat
    } else {
        0nat
    }) + count_sep(t.drop_first(), sep));
    if s.len() == 0 {
        assert(t[0] == x);
        assert(t.drop_first() =~= Seq::<u8>::empty());
        assert(count_sep(Seq::<u8>::empty(), sep) == 0);
    } else {
        assert(t[0] == s[0]);
        assert(t.drop_first() =~= s.drop_first().push(x));
        lemma_count_sep_push(s.drop_first(), x, sep);
    }
}

/// Appends all of `src` to `dst`.
pub fn push_all(dst: &mut Vec<u8>, src: &[u8])
    ensures
        final(dst)@ == old(dst)@ + src@,
{
    let n = src.len();
    let mut i: usize = 0;
    while i < n
        invariant
            n == src@.len(),
            0 <= i <= n,
            dst@ == old(dst)@ + src@.subrange(0, i as int),
        decreases n - i,
    {
        dst.push(src[i]);
        proof {
            assert(old(dst)@ + src@.subrange(0, i as int) + seq![src@[i as int]] =~= old(dst)@
                + src@.subrange(0, i + 1));
        }
        i = i + 1;
    }
    proof {
        assert(src@.subrange(0, n as int) =~= src@);
    }
}

/// Compares two byte slices for equality.
pub fn bytes_eq(a: &[u8], b: &[u8]) -> (r: bool)
    ensures
        r == (a@ == b@),
{
    if a.len() != b.len() {
        assert(a@.len() != b@.len());
        return false;
    }
    let n = a.len();
    let mut i: usize = 0;
    while i < n
        invariant
            n == a@.len() == b@.len(),
            0 <= i <= n,
            forall|j: int| 0 <= j < i ==> a@[j] == b@[j],
        decreases n - i,
    {
        if a[i] != b[i] {
            return false;
        }
        i = i + 1;
    }
    proof {
        assert(a@ =~= b@);
    }
    true
}

} // verus!
