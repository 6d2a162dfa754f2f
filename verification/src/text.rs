//! Verified text utilities: lexicographic ordering and sorting of strings,
//! substring search, splitting on a separator character, and blank tests.
//! These are the character-level building blocks of the namespace rewriter
//! and the descriptor generators.

use vstd::prelude::*;
use vstd::relations::{sorted_by, total_ordering};
use vstd::seq_lib::lemma_sorted_unique;
use vstd::seq_lib::lemma_multiset_commutative;
use vstd::multiset::Multiset;

verus! {

/// Lexicographic "less than or equal" on character sequences, by code point.
pub open spec fn str_le(a: Seq<char>, b: Seq<char>) -> bool
    decreases a.len(),
{
    if a.len() == 0 {
        true
    } else if b.len() == 0 {
        false
    } else if a[0] == b[0] {
        str_le(a.drop_first(), b.drop_first())
    } else {
        a[0] < b[0]
    }
}

/// `str_le` as a binary relation value, for use with vstd's ordering lemmas.
pub open spec fn str_le_ord() -> spec_fn(Seq<char>, Seq<char>) -> bool {
    |a: Seq<char>, b: Seq<char>| str_le(a, b)
}

pub proof fn lemma_str_le_refl(a: Seq<char>)
    ensures
        str_le(a, a),
    decreases a.len(),
{
    if a.len() > 0 {
        lemma_str_le_refl(a.drop_first());
    }
}

pub proof fn lemma_str_le_antisym(a: Seq<char>, b: Seq<char>)
    requires
        str_le(a, b),
        str_le(b, a),
    ensures
        a == b,
    decreases a.len(),
{
    if a.len() == 0 {
        assert(b.len() == 0);
        assert(a =~= b);
    } else {
        assert(b.len() > 0);
        assert(a[0] == b[0]);
        lemma_str_le_antisym(a.drop_first(), b.drop_first());
        assert forall|i: int| 0 <= i < a.len() implies a[i] == b[i] by {
            if i > 0 {
                assert(a[i] == a.drop_first()[i - 1]);
                assert(b[i] == b.drop_first()[i - 1]);
            }
        }
        assert(a =~= b);
    }
}

pub proof fn lemma_str_le_trans(a: Seq<char>, b: Seq<char>, c: Seq<char>)
    requires
        str_le(a, b),
        str_le(b, c),
    ensures
        str_le(a, c),
    decreases a.len(),
{
    if a.len() > 0 && b.len() > 0 && c.len() > 0 {
        if a[0] == b[0] && b[0] == c[0] {
            lemma_str_le_trans(a.drop_first(), b.drop_first(), c.drop_first());
        }
    }
}

pub proof fn lemma_str_le_connected(a: Seq<char>, b: Seq<char>)
    ensures
        str_le(a, b) || str_le(b, a),
    decreases a.len(),
{
    if a.len() > 0 && b.len() > 0 {
        if a[0] == b[0] {
            lemma_str_le_connected(a.drop_first(), b.drop_first());
        }
    }
}

/// `str_le` is a total ordering, so sorting by it has a unique result.
pub proof fn lemma_str_le_total_ordering()
    ensures
        total_ordering(str_le_ord()),
{
    let leq = str_le_ord();
    assert forall|a: Seq<char>| #[trigger] leq(a, a) by {
        lemma_str_le_refl(a);
    }
    assert forall|a: Seq<char>, b: Seq<char>| #[trigger] leq(a, b) && #[trigger] leq(b, a)
        implies a == b by {
        lemma_str_le_antisym(a, b);
    }
    assert forall|a: Seq<char>, b: Seq<char>, c: Seq<char>|
        #[trigger] leq(a, b) && #[trigger] leq(b, c) implies leq(a, c) by {
        lemma_str_le_trans(a, b, c);
    }
    assert forall|a: Seq<char>, b: Seq<char>| !(#[trigger] leq(a, b)) implies leq(b, a) by {
        lemma_str_le_connected(a, b);
    }
}

proof fn lemma_str_le_skip(a: Seq<char>, b: Seq<char>, i: int)
    requires
        0 <= i <= a.len(),
        i <= b.len(),
        forall|j: int| 0 <= j < i ==> a[j] == b[j],
    ensures
        str_le(a, b) == str_le(a.skip(i), b.skip(i)),
    decreases i,
{
    if i > 0 {
        assert(a.len() > 0 && b.len() > 0);
        assert(a[0] == b[0]);
        assert(forall|j: int| 0 <= j < i - 1 ==> a.drop_first()[j] == b.drop_first()[j]);
        lemma_str_le_skip(a.drop_first(), b.drop_first(), i - 1);
        assert(a.drop_first().skip(i - 1) =~= a.skip(i));
        assert(b.drop_first().skip(i - 1) =~= b.skip(i));
    } else {
        assert(a.skip(0) =~= a);
        assert(b.skip(0) =~= b);
    }
}

/// Decides the lexicographic order of two strings.
pub fn str_le_exec(a: &str, b: &str) -> (r: bool)
    ensures
        r == str_le(a@, b@),
{
    let alen = a.unicode_len();
    let blen = b.unicode_len();
    let mut i: usize = 0;
    loop
        invariant
            0 <= i <= alen,
            i <= blen,
            alen == a@.len(),
            blen == b@.len(),
            forall|j: int| 0 <= j < i ==> a@[j] == b@[j],
        ensures
            str_le(a@, b@) == (alen <= blen),
        decreases alen - i,
    {
        if i >= alen || i >= blen {
            proof {
                lemma_str_le_skip(a@, b@, i as int);
            }
            break;
        }
        let ca = a.get_char(i);
        let cb = b.get_char(i);
        if ca != cb {
            proof {
                lemma_str_le_skip(a@, b@, i as int);
                assert(a@.skip(i as int)[0] == ca);
                assert(b@.skip(i as int)[0] == cb);
            }
            return ca < cb;
        }
        proof {
            assert(a@[i as int] == ca && b@[i as int] == cb);
        }
        i = i + 1;
    }
    alen <= blen
}

proof fn lemma_to_multiset_insert(s: Seq<Seq<char>>, p: int, x: Seq<char>)
    requires
        0 <= p <= s.len(),
    ensures
        s.insert(p, x).to_multiset() =~= s.to_multiset().insert(x),
{
    broadcast use vstd::seq_lib::group_to_multiset_ensures;

    let front = s.subrange(0, p);
    let back = s.subrange(p, s.len() as int);
    assert(s =~= front + back);
    assert(s.insert(p, x) =~= front + (seq![x] + back));
    lemma_multiset_commutative(front, back);
    lemma_multiset_commutative(front, seq![x] + back);
    lemma_multiset_commutative(seq![x], back);
    assert(seq![x] =~= Seq::<Seq<char>>::empty().push(x));
    assert(Seq::<Seq<char>>::empty().to_multiset() =~= Multiset::<Seq<char>>::empty());
    assert(seq![x].to_multiset() =~= Multiset::<Seq<char>>::empty().insert(x));
}

/// Sorts strings into lexicographic order; the result is exactly vstd's
/// canonical `sort_by` of the input under `str_le`.
pub fn sort_strings(v: &Vec<String>) -> (r: Vec<String>)
    ensures
        r.deep_view() == v.deep_view().sort_by(str_le_ord()),
{
    let ghost leq = str_le_ord();
    proof {
        lemma_str_le_total_ordering();
    }
    let mut out: Vec<String> = Vec::new();
    let n = v.len();
    proof {
        assert(out.deep_view() =~= v.deep_view().take(0));
    }
    for i in 0..n
        invariant
            n == v.len(),
            sorted_by(out.deep_view(), leq),
            out.deep_view().to_multiset() =~= v.deep_view().take(i as int).to_multiset(),
            total_ordering(leq),
            leq == str_le_ord(),
    {
        let s = v[i].clone();
        let mut p: usize = 0;
        loop
            invariant
                0 <= p <= out.len(),
                forall|j: int| 0 <= j < p ==> str_le(out.deep_view()[j], s@),
                sorted_by(out.deep_view(), leq),
                leq == str_le_ord(),
            ensures
                0 <= p <= out.len(),
                forall|j: int| 0 <= j < p ==> str_le(out.deep_view()[j], s@),
                forall|j: int| p <= j < out.len() ==> str_le(s@, out.deep_view()[j]),
            decreases out.len() - p,
        {
            if p >= out.len() {
                break;
            }
            if str_le_exec(out[p].as_str(), s.as_str()) {
                p = p + 1;
            } else {
                proof {
                    lemma_str_le_connected(out.deep_view()[p as int], s@);
                    assert forall|j: int| p <= j < out.len() implies str_le(
                        s@,
                        out.deep_view()[j],
                    ) by {
                        if j > p {
                            assert(leq(out.deep_view()[p as int], out.deep_view()[j]));
                            lemma_str_le_trans(s@, out.deep_view()[p as int], out.deep_view()[j]);
                        }
                    }
                }
                break;
            }
        }
        let ghost prev = out.deep_view();
        out.insert(p, s);
        proof {
            assert(out.deep_view() =~= prev.insert(p as int, s@));
            lemma_to_multiset_insert(prev, p as int, s@);
            broadcast use vstd::seq_lib::group_to_multiset_ensures;
            assert(v.deep_view().take(i + 1).drop_last() =~= v.deep_view().take(i as int));
            assert(v.deep_view().take(i + 1) =~= v.deep_view().take(i as int).push(
                v.deep_view()[i as int],
            ));
            assert(out.deep_view().to_multiset() =~= v.deep_view().take(i + 1).to_multiset());
            let cur = out.deep_view();
            assert forall|x: int, y: int| 0 <= x < y < cur.len() implies leq(cur[x], cur[y]) by {
                if y < p {
                    assert(leq(prev[x], prev[y]));
                } else if x < p && y == p {
                    assert(str_le(prev[x], s@));
                } else if x < p && y > p {
                    assert(leq(prev[x], prev[y - 1]));
                } else if x == p {
                    assert(str_le(s@, prev[y - 1]));
                } else {
                    assert(leq(prev[x - 1], prev[y - 1]));
                }
            }
        }
    }
    proof {
        assert(v.deep_view().take(n as int) =~= v.deep_view());
        v.deep_view().lemma_sort_by_ensures(leq);
        lemma_sorted_unique(out.deep_view(), v.deep_view().sort_by(leq), leq);
        assert(out.deep_view() =~= v.deep_view().sort_by(leq));
    }
    out
}

/// Splits a character sequence on a separator; there is always at least one
/// (possibly empty) segment, and one more segment per separator occurrence.
pub open spec fn split_char(s: Seq<char>, sep: char) -> Seq<Seq<char>>
    decreases s.len(),
{
    if s.len() == 0 {
        seq![Seq::<char>::empty()]
    } else if s.last() == sep {
        split_char(s.drop_last(), sep).push(Seq::<char>::empty())
    } else {
        let r = split_char(s.drop_last(), sep);
        r.update(r.len() - 1, r.last().push(s.last()))
    }
}

pub proof fn lemma_split_char_len(s: Seq<char>, sep: char)
    ensures
        split_char(s, sep).len() >= 1,
    decreases s.len(),
{
    if s.len() > 0 {
        lemma_split_char_len(s.drop_last(), sep);
    }
}

/// Splits a string on a separator character, as `split_char` describes.
pub fn split_string(s: &str, sep: char) -> (r: Vec<String>)
    ensures
        r.deep_view() == split_char(s@, sep),
{
    let n = s.unicode_len();
    let mut out: Vec<String> = Vec::new();
    let mut start: usize = 0;
    proof {
        assert(s@.take(0) =~= Seq::<char>::empty());
        assert(s@.subrange(0, 0) =~= Seq::<char>::empty());
        assert(split_char(s@.take(0), sep) =~= out.deep_view().push(s@.subrange(0, 0)));
    }
    for i in 0..n
        invariant
            n == s@.len(),
            0 <= start <= i,
            split_char(s@.take(i as int), sep) =~= out.deep_view().push(
                s@.subrange(start as int, i as int),
            ),
    {
        let c = s.get_char(i);
        proof {
            assert(s@.take(i + 1).drop_last() =~= s@.take(i as int));
            assert(s@.take(i + 1).last() == s@[i as int]);
        }
        if c == sep {
            let ghost out0 = out.deep_view();
            let ghost start0 = start as int;
            out.push(String::from_str(s.substring_char(start, i)));
            start = i + 1;
            proof {
                assert(out.deep_view() =~= out0.push(s@.subrange(start0, i as int)));
                assert(s@.subrange(i + 1, i + 1) =~= Seq::<char>::empty());
                assert(split_char(s@.take(i + 1), sep) =~= out.deep_view().push(
                    s@.subrange(i + 1, i + 1),
                ));
            }
        } else {
            proof {
                let r = split_char(s@.take(i as int), sep);
                assert(r.last() == s@.subrange(start as int, i as int));
                assert(s@.subrange(start as int, i as int).push(s@[i as int]) =~= s@.subrange(
                    start as int,
                    i + 1,
                ));
                assert(r.update(r.len() - 1, r.last().push(s@[i as int])) =~= out.deep_view().push(
                    s@.subrange(start as int, i + 1),
                ));
            }
        }
    }
    out.push(String::from_str(s.substring_char(start, n)));
    proof {
        assert(s@.take(n as int) =~= s@);
    }
    out
}

/// True when `pat` occurs in `c` starting at position `i`.
pub open spec fn matches_at(c: Seq<char>, i: int, pat: Seq<char>) -> bool {
    0 <= i && i + pat.len() <= c.len() && c.subrange(i, i + pat.len()) == pat
}

/// True when `pat` occurs somewhere in `c`.
pub open spec fn contains_seq(c: Seq<char>, pat: Seq<char>) -> bool {
    exists|i: int| matches_at(c, i, pat)
}

/// Decides whether `pat` occurs as a substring of `c`.
pub fn contains_str(c: &str, pat: &str) -> (r: bool)
    ensures
        r == contains_seq(c@, pat@),
{
    let clen = c.unicode_len();
    let plen = pat.unicode_len();
    if plen > clen {
        proof {
            assert(forall|i: int| !matches_at(c@, i, pat@));
        }
        return false;
    }
    let last = clen - plen;
    let mut i: usize = 0;
    loop
        invariant
            0 <= i <= last + 1,
            last == clen - plen,
            plen <= clen,
            clen == c@.len(),
            plen == pat@.len(),
            forall|k: int| 0 <= k < i ==> !matches_at(c@, k, pat@),
        ensures
            forall|k: int| !matches_at(c@, k, pat@),
        decreases last + 1 - i,
    {
        if i > last {
            proof {
                assert forall|k: int| !matches_at(c@, k, pat@) by {
                    if k > last {
                        assert(k + pat@.len() > c@.len());
                    }
                }
            }
            break;
        }
        let mut j: usize = 0;
        let mut hit = true;
        while j < plen
            invariant
                0 <= j <= plen,
                plen == pat@.len(),
                clen == c@.len(),
                i + plen <= clen,
                hit ==> forall|jj: int| 0 <= jj < j ==> c@[i + jj] == pat@[jj],
                !hit ==> !matches_at(c@, i as int, pat@),
            decreases plen - j,
        {
            if c.get_char(i + j) != pat.get_char(j) {
                proof {
                    if matches_at(c@, i as int, pat@) {
                        assert(c@.subrange(i as int, i + pat@.len())[j as int] == pat@[j as int]);
                    }
                }
                hit = false;
                j = plen;
            } else {
                j = j + 1;
            }
        }
        if hit {
            proof {
                assert(c@.subrange(i as int, i + pat@.len()) =~= pat@);
                assert(matches_at(c@, i as int, pat@));
            }
            return true;
        }
        proof {
            if pat@.len() == 0 {
                assert(c@.subrange(i as int, i as int) =~= pat@);
                assert(matches_at(c@, i as int, pat@));
            }
        }
        i = i + 1;
    }
    false
}

/// The position of the first occurrence of `ch` in `c`, or `c.len()` when
/// `ch` does not occur.
pub open spec fn first_index_of(c: Seq<char>, ch: char) -> int
    decreases c.len(),
{
    if c.len() == 0 {
        0
    } else if c[0] == ch {
        0
    } else {
        1 + first_index_of(c.drop_first(), ch)
    }
}

proof fn lemma_first_index_of_scan(c: Seq<char>, ch: char, i: int)
    requires
        0 <= i <= c.len(),
        forall|j: int| 0 <= j < i ==> c[j] != ch,
        i < c.len() ==> c[i] == ch,
    ensures
        first_index_of(c, ch) == if i < c.len() {
            i
        } else {
            c.len() as int
        },
    decreases i,
{
    if c.len() > 0 {
        if i == 0 {
            if c.len() == 0 {
            }
        } else {
            assert(c[0] != ch);
            assert(forall|j: int| 0 <= j < i - 1 ==> c.drop_first()[j] != ch);
            lemma_first_index_of_scan(c.drop_first(), ch, i - 1);
        }
    }
}

/// Finds the first occurrence of a character, or `None` when it is absent.
pub fn find_char(s: &str, ch: char) -> (r: Option<usize>)
    ensures
        match r {
            Some(i) => i == first_index_of(s@, ch) && i < s@.len() && s@[i as int] == ch,
            None => first_index_of(s@, ch) == s@.len(),
        },
{
    let n = s.unicode_len();
    for i in 0..n
        invariant
            n == s@.len(),
            forall|j: int| 0 <= j < i ==> s@[j] != ch,
    {
        if s.get_char(i) == ch {
            proof {
                lemma_first_index_of_scan(s@, ch, i as int);
            }
            return Some(i);
        }
    }
    proof {
        lemma_first_index_of_scan(s@, ch, n as int);
    }
    None
}

/// An ASCII whitespace character.
pub open spec fn is_space(ch: char) -> bool {
    ch == ' ' || ch == '\t' || ch == '\n' || ch == '\r'
}

/// True when the sequence holds nothing but ASCII whitespace.
pub open spec fn blank(s: Seq<char>) -> bool {
    forall|i: int| 0 <= i < s.len() ==> is_space(#[trigger] s[i])
}

/// Decides whether a string is empty or all ASCII whitespace.
pub fn is_blank(s: &str) -> (r: bool)
    ensures
        r == blank(s@),
{
    let n = s.unicode_len();
    for i in 0..n
        invariant
            n == s@.len(),
            forall|j: int| 0 <= j < i ==> is_space(#[trigger] s@[j]),
    {
        let c = s.get_char(i);
        if !(c == ' ' || c == '\t' || c == '\n' || c == '\r') {
            return false;
        }
    }
    true
}

/// Concatenates the segments with `sep` between neighbours.
pub open spec fn join_with(lines: Seq<Seq<char>>, sep: Seq<char>) -> Seq<char>
    decreases lines.len(),
{
    if lines.len() == 0 {
        Seq::<char>::empty()
    } else if lines.len() == 1 {
        lines[0]
    } else {
        lines[0] + sep + join_with(lines.drop_first(), sep)
    }
}

pub proof fn lemma_join_with_push(s: Seq<Seq<char>>, x: Seq<char>, sep: Seq<char>)
    ensures
        join_with(s.push(x), sep) == if s.len() == 0 {
            x
        } else {
            join_with(s, sep) + sep + x
        },
    decreases s.len(),
{
    if s.len() == 0 {
        assert(join_with(s.push(x), sep) == s.push(x)[0]);
        assert(s.push(x)[0] == x);
    } else {
        assert(s.push(x).drop_first() =~= s.drop_first().push(x));
        lemma_join_with_push(s.drop_first(), x, sep);
        if s.len() == 1 {
            assert(join_with(s, sep) == s[0]);
            assert(join_with(s.push(x), sep) == s.push(x)[0] + sep + join_with(
                s.drop_first().push(x),
                sep,
            ));
        } else {
            assert(join_with(s.push(x), sep) == s[0] + sep + (join_with(s.drop_first(), sep) + sep
                + x));
            assert(s[0] + sep + (join_with(s.drop_first(), sep) + sep + x) =~= (s[0] + sep
                + join_with(s.drop_first(), sep)) + sep + x);
        }
    }
}

/// Joins strings with a separator, as `join_with` describes.
pub fn join_strings(v: &Vec<String>, sep: &str) -> (r: String)
    ensures
        r@ == join_with(v.deep_view(), sep@),
{
    let mut out = String::new();
    let n = v.len();
    for i in 0..n
        invariant
            n == v.len(),
            out@ == join_with(v.deep_view().take(i as int), sep@),
    {
        if i > 0 {
            out.append(sep);
        }
        out.append(v[i].as_str());
        proof {
            assert(v.deep_view().take(i + 1) =~= v.deep_view().take(i as int).push(
                v.deep_view()[i as int],
            ));
            lemma_join_with_push(v.deep_view().take(i as int), v.deep_view()[i as int], sep@);
        }
    }
    proof {
        assert(v.deep_view().take(n as int) =~= v.deep_view());
    }
    out
}

} // verus!
