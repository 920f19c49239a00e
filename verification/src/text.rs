//! Character-level utilities shared by the codec: conversion between strings
//! and character vectors, decimal integers, and space-separated token lists.

use vstd::assert_by_contradiction;
use vstd::prelude::*;
use vstd::string::StrSliceExecFns;
use vstd::string::StringExecFns;

verus! {

/// The characters of `s`, as a vector.
pub fn str_to_chars(s: &str) -> (r: Vec<char>)
    ensures
        r@ == s@,
{
    let n = s.unicode_len();
    let mut r: Vec<char> = Vec::new();
    let mut i: usize = 0;
    while i < n
        invariant
            0 <= i <= n,
            n == s@.len(),
            r@ == s@.subrange(0, i as int),
        decreases n - i,
    {
        let c = s.get_char(i);
        r.push(c);
        i = i + 1;
        assert(r@ =~= s@.subrange(0, i as int));
    }
    assert(r@ =~= s@);
    r
}

/// Relies on `String::from_iter` (via `Iterator::collect`): building a string
/// from its characters yields exactly that character sequence.
#[verifier::external_body]
pub fn chars_to_string(v: &Vec<char>) -> (r: String)
    ensures
        r@ == v@,
{
    v.iter().collect()
}

/// The character for a single decimal digit.
pub open spec fn spec_digit_char(d: int) -> char {
    (48 + d) as char
}

/// Decimal digits of a non-negative integer, most significant first.
pub open spec fn spec_dec_digits(n: nat) -> Seq<char>
    decreases n,
{
    if n < 10 {
        seq![spec_digit_char(n as int)]
    } else {
        spec_dec_digits(n / 10).push(spec_digit_char((n % 10) as int))
    }
}

/// Decimal rendering of a signed integer.
pub open spec fn spec_dec_int(n: int) -> Seq<char> {
    if n < 0 {
        seq!['-'] + spec_dec_digits((-n) as nat)
    } else {
        spec_dec_digits(n as nat)
    }
}

fn push_dec_digits(n: u64, out: &mut Vec<char>)
    ensures
        final(out)@ == old(out)@ + spec_dec_digits(n as nat),
    decreases n,
{
    if n >= 10 {
        push_dec_digits(n / 10, out);
    }
    let d: u8 = (n % 10) as u8;
    let c: char = (48 + d) as char;
    assert(c == spec_digit_char((n % 10) as int));
    out.push(c);
    assert(final(out)@ =~= old(out)@ + spec_dec_digits(n as nat));
}

/// The decimal form of `n`, as characters.
pub fn dec_int_chars(n: i64, out: &mut Vec<char>)
    ensures
        final(out)@ == old(out)@ + spec_dec_int(n as int),
{
    if n < 0 {
        out.push('-');
        let mag: u64 = (-(n as i128)) as u64;
        push_dec_digits(mag, out);
        assert(final(out)@ =~= old(out)@ + spec_dec_int(n as int));
    } else {
        push_dec_digits(n as u64, out);
    }
}

/// Length of the leading run of non-space characters.
pub open spec fn spec_token_len(s: Seq<char>) -> nat
    decreases s.len(),
{
    if s.len() == 0 || s[0] == ' ' {
        0
    } else {
        1 + spec_token_len(s.drop_first())
    }
}

pub proof fn lemma_token_len_le(s: Seq<char>)
    ensures
        spec_token_len(s) <= s.len(),
    decreases s.len(),
{
    if s.len() > 0 && s[0] != ' ' {
        lemma_token_len_le(s.drop_first());
    }
}

/// Split on spaces, dropping empty segments.
pub open spec fn spec_split_tokens(s: Seq<char>) -> Seq<Seq<char>>
    decreases s.len(),
    via spec_split_tokens_decreases
{
    if s.len() == 0 {
        Seq::empty()
    } else if s[0] == ' ' {
        spec_split_tokens(s.drop_first())
    } else {
        let k = 1 + spec_token_len(s.drop_first());
        seq![s.take(k as int)] + spec_split_tokens(s.skip(k as int))
    }
}

#[via_fn]
proof fn spec_split_tokens_decreases(s: Seq<char>) {
    if s.len() > 0 && s[0] != ' ' {
        lemma_token_len_le(s.drop_first());
    }
}

/// Join with single spaces.
pub open spec fn spec_join_tokens(ts: Seq<Seq<char>>) -> Seq<char>
    decreases ts.len(),
{
    if ts.len() == 0 {
        Seq::empty()
    } else if ts.len() == 1 {
        ts[0]
    } else {
        ts[0] + seq![' '] + spec_join_tokens(ts.drop_first())
    }
}

/// Keep the first occurrence of each element, preserving order.
pub open spec fn spec_dedup(ts: Seq<Seq<char>>) -> Seq<Seq<char>>
    decreases ts.len(),
{
    if ts.len() == 0 {
        Seq::empty()
    } else if ts.drop_last().contains(ts.last())  {
        spec_dedup(ts.drop_last())
    } else {
        spec_dedup(ts.drop_last()).push(ts.last())
    }
}

/// A token as it may appear in a space-separated set field: non-empty and
/// containing no space.
pub open spec fn token_wf(t: Seq<char>) -> bool {
    t.len() > 0 && (forall|i: int| 0 <= i < t.len() ==> t[i] != ' ')
}

/// A well-formed token set: well-formed tokens, no repetitions.
pub open spec fn tokens_wf(ts: Seq<Seq<char>>) -> bool {
    &&& forall|i: int| 0 <= i < ts.len() ==> token_wf(#[trigger] ts[i])
    &&& forall|i: int, j: int| 0 <= i < j < ts.len() ==> ts[i] != ts[j]
}

proof fn lemma_token_len_concat(t: Seq<char>, rest: Seq<char>)
    requires
        token_wf(t),
        rest.len() == 0 || rest[0] == ' ',
    ensures
        spec_token_len(t + rest) == t.len(),
    decreases t.len(),
{
    assert((t + rest)[0] == t[0]);
    assert(t[0] != ' ');
    if t.len() == 1 {
        assert((t + rest).drop_first() =~= rest);
        assert(spec_token_len(rest) == 0);
    } else {
        assert((t + rest).drop_first() =~= t.drop_first() + rest);
        assert(token_wf(t.drop_first())) by {
            assert(forall|i: int|
                0 <= i < t.drop_first().len() ==> t.drop_first()[i] == t[i + 1]);
        }
        lemma_token_len_concat(t.drop_first(), rest);
    }
}

proof fn lemma_split_of_join(ts: Seq<Seq<char>>)
    requires
        forall|i: int| 0 <= i < ts.len() ==> token_wf(#[trigger] ts[i]),
    ensures
        spec_split_tokens(spec_join_tokens(ts)) == ts,
    decreases ts.len(),
{
    if ts.len() == 0 {
        assert(spec_split_tokens(spec_join_tokens(ts)) =~= ts);
    } else if ts.len() == 1 {
        let t = ts[0];
        let s = spec_join_tokens(ts);
        assert(s == t);
        lemma_token_len_concat(t, Seq::empty());
        assert(t + Seq::<char>::empty() =~= t);
        assert(spec_token_len(t) == t.len());
        assert(spec_token_len(s) == 1 + spec_token_len(s.drop_first()));
        assert(1 + spec_token_len(s.drop_first()) == t.len());
        assert(s.take(t.len() as int) =~= t);
        assert(s.skip(t.len() as int) =~= Seq::<char>::empty());
        assert(spec_split_tokens(Seq::<char>::empty()) =~= Seq::<Seq<char>>::empty());
        assert(spec_split_tokens(s) =~= seq![t] + spec_split_tokens(
            s.skip(t.len() as int),
        ));
        assert(spec_split_tokens(spec_join_tokens(ts)) =~= ts);
    } else {
        let t = ts[0];
        let rest = ts.drop_first();
        let s = spec_join_tokens(ts);
        let tail = seq![' '] + spec_join_tokens(rest);
        assert(s =~= t + tail);
        lemma_token_len_concat(t, tail);
        assert(spec_token_len(s) == t.len());
        assert(spec_token_len(s) == 1 + spec_token_len(s.drop_first()));
        assert(1 + spec_token_len(s.drop_first()) == t.len());
        assert(s.take(t.len() as int) =~= t);
        assert(s.skip(t.len() as int) =~= tail);
        assert(tail[0] == ' ');
        assert(tail.drop_first() =~= spec_join_tokens(rest));
        assert(spec_split_tokens(tail) == spec_split_tokens(spec_join_tokens(rest)));
        assert(forall|i: int| 0 <= i < rest.len() ==> token_wf(#[trigger] rest[i])) by {
            assert(forall|i: int| 0 <= i < rest.len() ==> rest[i] == ts[i + 1]);
        }
        lemma_split_of_join(rest);
        assert(spec_split_tokens(s) =~= seq![t] + rest);
        assert(seq![t] + rest =~= ts);
    }
}

proof fn lemma_dedup_of_distinct(ts: Seq<Seq<char>>)
    requires
        forall|i: int, j: int| 0 <= i < j < ts.len() ==> ts[i] != ts[j],
    ensures
        spec_dedup(ts) == ts,
    decreases ts.len(),
{
    if ts.len() == 0 {
        assert(spec_dedup(ts) =~= ts);
    } else {
        assert(!ts.drop_last().contains(ts.last())) by {
            if ts.drop_last().contains(ts.last()) {
                let i = choose|i: int| 0 <= i < ts.drop_last().len() && ts.drop_last()[i]
                    == ts.last();
                assert(ts[i] == ts[ts.len() - 1]);
            }
        }
        lemma_dedup_of_distinct(ts.drop_last());
        assert(spec_dedup(ts) =~= ts);
    }
}

/// A well-formed token set survives being joined into a single
/// space-separated string and decoded back: the same tokens, in the same
/// order, come out.
pub proof fn lemma_tokens_round_trip(ts: Seq<Seq<char>>)
    requires
        tokens_wf(ts),
    ensures
        spec_dedup(spec_split_tokens(spec_join_tokens(ts))) == ts,
{
    lemma_split_of_join(ts);
    lemma_dedup_of_distinct(ts);
}

proof fn lemma_token_len_position(s: Seq<char>, p: int)
    requires
        0 <= p <= s.len(),
        forall|m: int| 0 <= m < p ==> s[m] != ' ',
        p == s.len() || s[p] == ' ',
    ensures
        spec_token_len(s) == p,
    decreases p,
{
    if p == 0 {
    } else {
        assert(s[0] != ' ');
        assert(forall|m: int| 0 <= m < p - 1 ==> s.drop_first()[m] == s[m + 1]);
        lemma_token_len_position(s.drop_first(), p - 1);
    }
}

proof fn lemma_dedup_contains(ts: Seq<Seq<char>>, x: Seq<char>)
    ensures
        spec_dedup(ts).contains(x) <==> ts.contains(x),
    decreases ts.len(),
{
    if ts.len() == 0 {
    } else {
        lemma_dedup_contains(ts.drop_last(), x);
        assert(ts.contains(x) <==> ts.drop_last().contains(x) || ts.last() == x) by {
            if ts.contains(x) {
                let i = choose|i: int| 0 <= i < ts.len() && ts[i] == x;
                if i < ts.len() - 1 {
                    assert(ts.drop_last()[i] == x);
                }
            }
            if ts.drop_last().contains(x) {
                let i = choose|i: int| 0 <= i < ts.drop_last().len() && ts.drop_last()[i] == x;
                assert(ts[i] == x);
            }
            if ts.last() == x {
                assert(ts[ts.len() - 1] == x);
            }
        }
        if !ts.drop_last().contains(ts.last()) {
            let base = spec_dedup(ts.drop_last());
            assert(spec_dedup(ts) == base.push(ts.last()));
            if base.contains(x) {
                let i = choose|i: int| 0 <= i < base.len() && base[i] == x;
                assert(base.push(ts.last())[i] == x);
            }
            if x == ts.last() {
                assert(base.push(ts.last())[base.len() as int] == x);
            }
            if base.push(ts.last()).contains(x) {
                let i = choose|i: int|
                    0 <= i < base.push(ts.last()).len() && base.push(ts.last())[i] == x;
                if i < base.len() {
                    assert(base[i] == x);
                }
            }
        }
    }
}

fn split_tokens_chars(cs: &Vec<char>) -> (r: Vec<String>)
    ensures
        r.deep_view() == spec_split_tokens(cs@),
{
    let n = cs.len();
    let mut r: Vec<String> = Vec::new();
    proof {
        assert(cs@.skip(0) =~= cs@);
        assert(r.deep_view() =~= Seq::<Seq<char>>::empty());
        assert(r.deep_view() + spec_split_tokens(cs@) =~= spec_split_tokens(cs@));
    }
    let mut i: usize = 0;
    while i < n
        invariant
            i <= n,
            n == cs@.len(),
            r.deep_view() + spec_split_tokens(cs@.skip(i as int)) =~= spec_split_tokens(cs@),
        decreases n - i,
    {
        if cs[i] == ' ' {
            proof {
                assert(cs@.skip(i as int).drop_first() =~= cs@.skip(i + 1 as int));
            }
            i = i + 1;
        } else {
            let ghost prev = r.deep_view();
            let start = i;
            let mut tok: Vec<char> = Vec::new();
            while i < n && cs[i] != ' '
                invariant
                    start <= i <= n,
                    n == cs@.len(),
                    cs@[start as int] != ' ',
                    tok@ =~= cs@.subrange(start as int, i as int),
                    forall|m: int| start <= m < i ==> cs@[m] != ' ',
                decreases n - i,
            {
                let c = cs[i];
                tok.push(c);
                i = i + 1;
                assert(tok@ =~= cs@.subrange(start as int, i as int));
            }
            proof {
                assert(i > start);
                let sk = cs@.skip(start as int);
                assert(forall|m: int| 0 <= m < i - start ==> sk[m] == cs@[start + m]);
                lemma_token_len_position(sk, i - start);
                assert(spec_token_len(sk) == 1 + spec_token_len(sk.drop_first()));
                assert(sk.take((i - start) as int) =~= cs@.subrange(start as int, i as int));
                assert(sk.skip((i - start) as int) =~= cs@.skip(i as int));
                assert(spec_split_tokens(sk) =~= seq![tok@] + spec_split_tokens(
                    cs@.skip(i as int),
                ));
            }
            let t = chars_to_string(&tok);
            r.push(t);
            proof {
                assert(r.deep_view() =~= prev.push(tok@));
                assert(r.deep_view() + spec_split_tokens(cs@.skip(i as int))
                    =~= spec_split_tokens(cs@));
            }
        }
    }
    proof {
        assert(cs@.skip(n as int) =~= Seq::<char>::empty());
        assert(spec_split_tokens(Seq::<char>::empty()) =~= Seq::<Seq<char>>::empty());
        assert(r.deep_view() =~= spec_split_tokens(cs@));
    }
    r
}

pub(crate) fn contains_string(v: &Vec<String>, x: &String) -> (r: bool)
    ensures
        r == v.deep_view().contains(x@),
{
    let mut i: usize = 0;
    while i < v.len()
        invariant
            i <= v.len(),
            forall|m: int| 0 <= m < i ==> v.deep_view()[m] != x@,
        decreases v.len() - i,
    {
        if v[i].eq(x) {
            proof {
                assert(v.deep_view()[i as int] == x@);
            }
            return true;
        }
        i = i + 1;
    }
    proof {
        assert_by_contradiction!(!v.deep_view().contains(x@), {
            let j = choose|j: int| 0 <= j < v.deep_view().len() && v.deep_view()[j] == x@;
            assert(v.deep_view()[j] != x@);
        });
    }
    false
}

fn dedup_strings(v: Vec<String>) -> (r: Vec<String>)
    ensures
        r.deep_view() == spec_dedup(v.deep_view()),
{
    let mut r: Vec<String> = Vec::new();
    let mut i: usize = 0;
    while i < v.len()
        invariant
            i <= v.len(),
            r.deep_view() =~= spec_dedup(v.deep_view().take(i as int)),
        decreases v.len() - i,
    {
        let ghost pre = v.deep_view().take(i as int);
        let dup = contains_string(&r, &v[i]);
        proof {
            lemma_dedup_contains(pre, v.deep_view()[i as int]);
            assert(v.deep_view().take(i + 1 as int).drop_last() =~= pre);
            assert(v.deep_view().take(i + 1 as int).last() == v.deep_view()[i as int]);
        }
        if !dup {
            let ghost prev = r.deep_view();
            let x = v[i].clone();
            r.push(x);
            proof {
                assert(r.deep_view() =~= prev.push(v.deep_view()[i as int]));
            }
        }
        i = i + 1;
    }
    proof {
        assert(v.deep_view().take(v.deep_view().len() as int) =~= v.deep_view());
    }
    r
}

/// Decode a space-separated set field: split on spaces, drop empty
/// segments, keep the first occurrence of each token.
pub fn split_tokens(s: &str) -> (r: Vec<String>)
    ensures
        r.deep_view() == spec_dedup(spec_split_tokens(s@)),
{
    let cs = str_to_chars(s);
    let raw = split_tokens_chars(&cs);
    dedup_strings(raw)
}

proof fn lemma_join_append_last(ts: Seq<Seq<char>>)
    requires
        ts.len() >= 2,
    ensures
        spec_join_tokens(ts) == spec_join_tokens(ts.drop_last()) + seq![' '] + ts.last(),
    decreases ts.len(),
{
    let rest = ts.drop_first();
    if ts.len() == 2 {
        assert(rest.len() == 1);
        assert(spec_join_tokens(rest) == rest[0]);
        assert(spec_join_tokens(ts) == ts[0] + seq![' '] + rest[0]);
        assert(ts.drop_last().len() == 1);
        assert(spec_join_tokens(ts.drop_last()) == ts.drop_last()[0]);
        assert(ts.drop_last()[0] == ts[0]);
        assert(rest[0] == ts.last());
    } else {
        lemma_join_append_last(rest);
        assert(rest.drop_last() =~= ts.drop_last().drop_first());
        assert(rest.last() == ts.last());
        assert(ts.drop_last().len() >= 2);
        assert(ts.drop_last()[0] == ts[0]);
        assert(spec_join_tokens(ts.drop_last()) == ts[0] + seq![' ']
            + spec_join_tokens(ts.drop_last().drop_first()));
        assert(ts[0] + seq![' '] + (spec_join_tokens(rest.drop_last()) + seq![' ']
            + rest.last()) =~= (ts[0] + seq![' '] + spec_join_tokens(rest.drop_last()))
            + seq![' '] + ts.last());
    }
}

/// Encode a token set as a single space-separated string.
pub fn join_tokens(ts: &Vec<String>) -> (r: String)
    ensures
        r@ == spec_join_tokens(ts.deep_view()),
{
    let mut r = String::new();
    let mut i: usize = 0;
    while i < ts.len()
        invariant
            i <= ts.len(),
            r@ =~= spec_join_tokens(ts.deep_view().take(i as int)),
        decreases ts.len() - i,
    {
        proof {
            reveal_strlit(" ");
            assert(" "@ =~= seq![' ']);
        }
        if i > 0 {
            r.append(" ");
        }
        r.append(ts[i].as_str());
        proof {
            let dv = ts.deep_view();
            assert(dv.take(i + 1 as int).last() == dv[i as int]);
            assert(dv.take(i + 1 as int).drop_last() =~= dv.take(i as int));
            if i == 0 {
                assert(dv.take(1).len() == 1);
                assert(spec_join_tokens(dv.take(1)) == dv.take(1)[0]);
                assert(r@ =~= spec_join_tokens(dv.take(1)));
            } else {
                lemma_join_append_last(dv.take(i + 1 as int));
                assert(r@ =~= spec_join_tokens(dv.take(i + 1 as int)));
            }
        }
        i = i + 1;
    }
    proof {
        assert(ts.deep_view().take(ts.deep_view().len() as int) =~= ts.deep_view());
    }
    r
}

} // verus!
