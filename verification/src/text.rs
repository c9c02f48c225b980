//! Character-level helpers shared by the renderer's parsers: locating
//! separators in a string and reading unsigned decimal numbers.

use vstd::prelude::*;
use vstd::string::StrSliceExecFns;

verus! {

/// A decimal digit `'0'..='9'`.
pub open spec fn is_dec_digit(c: char) -> bool {
    48 <= (c as u32) && (c as u32) <= 57
}

/// Numeric value of a decimal digit (0 for anything else).
pub open spec fn dec_digit(c: char) -> nat {
    if is_dec_digit(c) {
        ((c as u32) - 48) as nat
    } else {
        0
    }
}

/// Every character of `s` is a decimal digit.
pub open spec fn all_dec_digits(s: Seq<char>) -> bool {
    forall|i: int| 0 <= i < s.len() ==> is_dec_digit(#[trigger] s[i])
}

/// The number denoted by a sequence of decimal digits, most significant
/// digit first.
pub open spec fn dec_value(s: Seq<char>) -> nat
    decreases s.len(),
{
    if s.len() == 0 {
        0
    } else {
        10 * dec_value(s.drop_last()) + dec_digit(s.last())
    }
}

/// The digits of a number literal: an optional leading `'+'` is dropped,
/// as `usize::from_str` does.
pub open spec fn num_body(s: Seq<char>) -> Seq<char> {
    if s.len() > 0 && s[0] == '+' {
        s.subrange(1, s.len() as int)
    } else {
        s
    }
}

/// `s` is accepted by `usize::from_str`: at least one digit after an
/// optional `'+'`, and the value fits in a `usize`.
pub open spec fn is_usize_literal(s: Seq<char>) -> bool {
    &&& num_body(s).len() > 0
    &&& all_dec_digits(num_body(s))
    &&& dec_value(num_body(s)) <= usize::MAX
}

/// The value of a string accepted by `is_usize_literal`.
pub open spec fn usize_literal_value(s: Seq<char>) -> nat {
    dec_value(num_body(s))
}

/// Index of the first occurrence of `c` in `s` at or after `from`, or
/// `s.len()` if there is none.
pub open spec fn seg_end(s: Seq<char>, c: char, from: int) -> int
    decreases s.len() - from,
{
    if from >= s.len() {
        s.len() as int
    } else if s[from] == c {
        from
    } else {
        seg_end(s, c, from + 1)
    }
}

/// Index of the first occurrence of the pattern `p` in `s` at or after
/// `from`, or `-1` if there is none.
pub open spec fn first_pat(s: Seq<char>, p: Seq<char>, from: int) -> int
    decreases s.len() - from + 1,
{
    if from + p.len() > s.len() {
        -1
    } else if s.subrange(from, from + p.len() as int) == p {
        from
    } else {
        first_pat(s, p, from + 1)
    }
}

/// What `seg_end` returns: a position between `from` and the end, holding
/// `c` if within the string, with no earlier occurrence.
pub proof fn lemma_seg_end(s: Seq<char>, c: char, from: int)
    requires
        0 <= from <= s.len(),
    ensures
        from <= seg_end(s, c, from) <= s.len(),
        seg_end(s, c, from) < s.len() ==> s[seg_end(s, c, from)] == c,
        forall|k: int| from <= k < seg_end(s, c, from) ==> s[k] != c,
    decreases s.len() - from,
{
    if from < s.len() && s[from] != c {
        lemma_seg_end(s, c, from + 1);
    }
}

/// What `first_pat` returns when it finds the pattern: a window equal to
/// `p`, with every earlier window different.
pub proof fn lemma_first_pat(s: Seq<char>, p: Seq<char>, from: int)
    requires
        0 <= from,
        p.len() >= 1,
    ensures
        first_pat(s, p, from) == -1 || (from <= first_pat(s, p, from)
            && first_pat(s, p, from) + p.len() <= s.len()
            && s.subrange(first_pat(s, p, from), first_pat(s, p, from) + p.len() as int) == p),
        forall|k: int|
            from <= k && k + p.len() <= s.len() && (first_pat(s, p, from) == -1 || k < first_pat(
                s,
                p,
                from,
            )) ==> #[trigger] s.subrange(k, k + p.len() as int) != p,
    decreases s.len() - from,
{
    if from + p.len() <= s.len() && s.subrange(from, from + p.len() as int) != p {
        lemma_first_pat(s, p, from + 1);
    }
}

/// A prefix of a digit string denotes no more than the whole string.
pub proof fn lemma_dec_value_prefix(s: Seq<char>, k: int)
    requires
        0 <= k <= s.len(),
    ensures
        dec_value(s.take(k)) <= dec_value(s),
    decreases s.len(),
{
    if k < s.len() {
        assert(s.drop_last().take(k) =~= s.take(k));
        lemma_dec_value_prefix(s.drop_last(), k);
    } else {
        assert(s.take(k) =~= s);
    }
}

/// First occurrence of the character `c` in `s` at or after `from`;
/// `s`'s length when `c` does not occur there.
pub fn find_from(s: &str, from: usize, c: char) -> (r: usize)
    requires
        from <= s@.len(),
    ensures
        r == seg_end(s@, c, from as int),
{
    let n = s.unicode_len();
    let mut i = from;
    while i < n
        invariant
            from <= i <= n,
            n == s@.len(),
            seg_end(s@, c, from as int) == seg_end(s@, c, i as int),
        decreases n - i,
    {
        if s.get_char(i) == c {
            return i;
        }
        i = i + 1;
    }
    i
}

/// First occurrence of the pattern `p` in `s` at or after `from`.
pub fn find_sub(s: &str, p: &str, from: usize) -> (r: Option<usize>)
    requires
        p@.len() >= 1,
        from <= s@.len(),
    ensures
        r matches Some(i) ==> i == first_pat(s@, p@, from as int) && first_pat(s@, p@, from as int)
            >= 0,
        r is None ==> first_pat(s@, p@, from as int) == -1,
{
    let n = s.unicode_len();
    let m = p.unicode_len();
    if m > n {
        return None;
    }
    let mut i = from;
    while i <= n - m
        invariant
            from <= i <= n,
            1 <= m <= n == s@.len(),
            m == p@.len(),
            first_pat(s@, p@, from as int) == first_pat(s@, p@, i as int),
        decreases n - i,
    {
        let mut j: usize = 0;
        let mut matches = true;
        while j < m
            invariant
                0 <= j <= m,
                i + m <= n,
                n == s@.len(),
                m == p@.len(),
                matches ==> forall|k: int| 0 <= k < j ==> s@[i + k] == p@[k],
                !matches ==> s@.subrange(i as int, i + m) != p@,
            decreases m - j,
        {
            if s.get_char(i + j) != p.get_char(j) {
                proof {
                    assert(s@.subrange(i as int, i + m)[j as int] != p@[j as int]);
                }
                matches = false;
                j = m;
            } else {
                j = j + 1;
            }
        }
        if matches {
            proof {
                assert(s@.subrange(i as int, i + m) =~= p@);
            }
            return Some(i);
        }
        i = i + 1;
    }
    None
}

/// Whether the characters of `s` between `start` and `end` are exactly `p`.
pub fn str_range_eq(s: &str, start: usize, end: usize, p: &str) -> (r: bool)
    requires
        start <= end <= s@.len(),
    ensures
        r <==> s@.subrange(start as int, end as int) == p@,
{
    let m = p.unicode_len();
    if end - start != m {
        return false;
    }
    let mut j: usize = 0;
    while j < m
        invariant
            0 <= j <= m,
            start <= end <= s@.len(),
            m == p@.len(),
            end - start == m,
            forall|k: int| 0 <= k < j ==> s@[start + k] == p@[k],
        decreases m - j,
    {
        if s.get_char(start + j) != p.get_char(j) {
            proof {
                assert(s@.subrange(start as int, end as int)[j as int] != p@[j as int]);
            }
            return false;
        }
        j = j + 1;
    }
    proof {
        assert(s@.subrange(start as int, end as int) =~= p@);
    }
    true
}

/// Reads the characters of `s` between `start` and `end` as a decimal
/// `usize`, accepting exactly what `usize::from_str` accepts.
pub fn parse_usize_range(s: &str, start: usize, end: usize) -> (r: Option<usize>)
    requires
        start <= end <= s@.len(),
    ensures
        r is Some <==> is_usize_literal(s@.subrange(start as int, end as int)),
        r matches Some(v) ==> v == usize_literal_value(s@.subrange(start as int, end as int)),
{
    let ghost sub = s@.subrange(start as int, end as int);
    let mut i = start;
    if start < end && s.get_char(start) == '+' {
        i = start + 1;
    }
    proof {
        assert(num_body(sub) =~= s@.subrange(i as int, end as int));
    }
    let ghost body = s@.subrange(i as int, end as int);
    if i == end {
        return None;
    }
    let mut acc: usize = 0;
    let mut j = i;
    while j < end
        invariant
            start <= i <= j <= end <= s@.len(),
            sub == s@.subrange(start as int, end as int),
            body == s@.subrange(i as int, end as int),
            num_body(sub) == body,
            all_dec_digits(s@.subrange(i as int, j as int)),
            acc == dec_value(s@.subrange(i as int, j as int)),
        decreases end - j,
    {
        let c = s.get_char(j);
        let u = c as u32;
        if u < 48 || u > 57 {
            proof {
                assert(body[j - i] == c);
                assert(!is_dec_digit(body[j - i]));
                assert(!all_dec_digits(body));
                assert(num_body(sub) == body);
            }
            return None;
        }
        let d = (u - 48) as usize;
        proof {
            let prev = s@.subrange(i as int, j as int);
            let next = s@.subrange(i as int, j + 1);
            assert(next.drop_last() =~= prev);
            assert(next.last() == c);
            assert(dec_value(next) == 10 * acc + d);
        }
        let step = match acc.checked_mul(10) {
            Some(a) => a.checked_add(d),
            None => None,
        };
        match step {
            Some(a) => {
                acc = a;
            },
            None => {
                proof {
                    let next = s@.subrange(i as int, j + 1);
                    assert(next =~= body.take(j + 1 - i));
                    lemma_dec_value_prefix(body, j + 1 - i);
                    assert(dec_value(body) >= 10 * acc + d > usize::MAX);
                    assert(num_body(sub) == body);
                    assert(!is_usize_literal(sub));
                }
                return None;
            },
        }
        proof {
            let prev = s@.subrange(i as int, j as int);
            let next = s@.subrange(i as int, j + 1);
            assert(forall|k: int| 0 <= k < next.len() ==> next[k] == if k < prev.len() {
                prev[k]
            } else {
                c
            });
        }
        j = j + 1;
    }
    proof {
        assert(s@.subrange(i as int, j as int) =~= body);
    }
    Some(acc)
}

/// Reads all of `s` as a decimal `usize`, accepting exactly what
/// `usize::from_str` accepts.
pub fn parse_usize(s: &str) -> (r: Option<usize>)
    ensures
        r is Some <==> is_usize_literal(s@),
        r matches Some(v) ==> v == usize_literal_value(s@),
{
    let n = s.unicode_len();
    let r = parse_usize_range(s, 0, n);
    proof {
        assert(s@.subrange(0, n as int) =~= s@);
    }
    r
}

} // verus!
