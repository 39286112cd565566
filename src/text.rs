//! Character-level helpers: decimal numbers, prefixes and suffixes.

use vstd::prelude::*;

verus! {

/// An ASCII decimal digit.
pub open spec fn is_digit(c: char) -> bool {
    '0' <= c && c <= '9'
}

pub open spec fn all_digits(s: Seq<char>) -> bool {
    forall|i: int| 0 <= i < s.len() ==> is_digit(#[trigger] s[i])
}

/// The value of a string of decimal digits, most significant first.
pub open spec fn digits_value(s: Seq<char>) -> nat
    decreases s.len(),
{
    if s.len() == 0 {
        0
    } else {
        digits_value(s.drop_last()) * 10 + (s.last() as nat - '0' as nat) as nat
    }
}

/// The digits of an unsigned decimal number, after an optional leading `+`.
pub open spec fn unsigned_digits(s: Seq<char>) -> Seq<char> {
    if s.len() > 0 && s[0] == '+' {
        s.drop_first()
    } else {
        s
    }
}

/// What parsing `s` as a `u64` gives: an optional `+`, then at least one
/// ASCII digit and nothing else, of a value that fits in 64 bits.
pub open spec fn decimal_u64(s: Seq<char>) -> Option<u64> {
    let d = unsigned_digits(s);
    if d.len() > 0 && all_digits(d) && digits_value(d) <= u64::MAX {
        Some(digits_value(d) as u64)
    } else {
        None
    }
}

pub open spec fn starts_with(s: Seq<char>, p: Seq<char>) -> bool {
    p.len() <= s.len() && s.subrange(0, p.len() as int) == p
}

pub open spec fn ends_with_char(s: Seq<char>, c: char) -> bool {
    s.len() > 0 && s.last() == c
}

pub open spec fn is_ascii_char(c: char) -> bool {
    (c as u32) < 128
}

pub open spec fn all_ascii(s: Seq<char>) -> bool {
    forall|i: int| 0 <= i < s.len() ==> is_ascii_char(#[trigger] s[i])
}

/// `p` occurs in `s` at position `i`.
pub open spec fn lit_at(s: Seq<char>, i: int, p: Seq<char>) -> bool {
    0 <= i && i + p.len() <= s.len() && s.subrange(i, i + p.len()) == p
}

/// The position after `p` when it occurs at `i`, else `i`.
pub open spec fn skip_lit(s: Seq<char>, i: int, p: Seq<char>) -> int {
    if lit_at(s, i, p) {
        i + p.len()
    } else {
        i
    }
}

/// The end of the run of digits that starts at `i`.
pub open spec fn digit_run_end(s: Seq<char>, i: int) -> int
    decreases s.len() - i,
{
    if 0 <= i < s.len() && is_digit(s[i]) {
        digit_run_end(s, i + 1)
    } else {
        i
    }
}

/// The first position at or after `i` that holds `c`, or the length.
pub open spec fn find_char(s: Seq<char>, i: int, c: char) -> int
    decreases s.len() - i,
{
    if i < 0 || i >= s.len() {
        s.len() as int
    } else if s[i] == c {
        i
    } else {
        find_char(s, i + 1, c)
    }
}

/// `s` without all the copies of `c` at its end.
pub open spec fn trim_trailing(s: Seq<char>, c: char) -> Seq<char>
    decreases s.len(),
{
    if s.len() > 0 && s.last() == c {
        trim_trailing(s.drop_last(), c)
    } else {
        s
    }
}

pub fn lit_at_exec(v: &Vec<char>, i: usize, p: &Vec<char>) -> (r: bool)
    ensures
        r == lit_at(v@, i as int, p@),
        r ==> i + p@.len() <= v@.len() <= usize::MAX,
{
    if i > v.len() || p.len() > v.len() - i {
        return false;
    }
    let end: usize = i + p.len();
    let mut k: usize = 0;
    while k < p.len()
        invariant
            end == i + p@.len(),
            i + p@.len() <= v@.len(),
            k <= p@.len(),
            forall|j: int| 0 <= j < k ==> v@[i + j] == p@[j],
        decreases p@.len() - k,
    {
        if v[i + k] != p[k] {
            assert(v@.subrange(i as int, i + p@.len())[k as int] != p@[k as int]);
            return false;
        }
        k = k + 1;
    }
    assert(v@.subrange(i as int, i + p@.len()) =~= p@);
    true
}

pub fn skip_lit_exec(v: &Vec<char>, i: usize, p: &Vec<char>) -> (r: usize)
    requires
        i <= v@.len(),
    ensures
        r == skip_lit(v@, i as int, p@),
        r <= v@.len(),
{
    if lit_at_exec(v, i, p) {
        i + p.len()
    } else {
        i
    }
}

pub fn digit_run_end_exec(v: &Vec<char>, i: usize) -> (r: usize)
    requires
        i <= v@.len(),
    ensures
        r == digit_run_end(v@, i as int),
        i <= r <= v@.len(),
        all_digits(v@.subrange(i as int, r as int)),
{
    let mut j: usize = i;
    while j < v.len() && '0' <= v[j] && v[j] <= '9'
        invariant
            i <= j <= v@.len(),
            digit_run_end(v@, i as int) == digit_run_end(v@, j as int),
            all_digits(v@.subrange(i as int, j as int)),
        decreases v@.len() - j,
    {
        assert(v@.subrange(i as int, j + 1) =~= v@.subrange(i as int, j as int).push(v@[j as int]));
        j = j + 1;
    }
    j
}

pub fn find_char_exec(v: &Vec<char>, i: usize, c: char) -> (r: usize)
    requires
        i <= v@.len(),
    ensures
        r == find_char(v@, i as int, c),
        i <= r <= v@.len(),
        forall|k: int| i <= k < r ==> v@[k] != c,
{
    let mut j: usize = i;
    while j < v.len() && v[j] != c
        invariant
            i <= j <= v@.len(),
            find_char(v@, i as int, c) == find_char(v@, j as int, c),
            forall|k: int| i <= k < j ==> v@[k] != c,
        decreases v@.len() - j,
    {
        j = j + 1;
    }
    j
}

/// The length of `v[from..to]` once trailing copies of `c` are dropped.
pub fn trim_trailing_end(v: &Vec<char>, from: usize, to: usize, c: char) -> (r: usize)
    requires
        from <= to <= v@.len(),
    ensures
        from <= r <= to,
        v@.subrange(from as int, r as int) == trim_trailing(v@.subrange(from as int, to as int), c),
{
    let mut e: usize = to;
    while e > from && v[e - 1] == c
        invariant
            from <= e <= to <= v@.len(),
            trim_trailing(v@.subrange(from as int, e as int), c) == trim_trailing(v@.subrange(from as int, to as int), c),
        decreases e - from,
    {
        assert(v@.subrange(from as int, e as int).drop_last() =~= v@.subrange(from as int, e - 1));
        e = e - 1;
    }
    e
}

pub fn is_ascii_exec(v: &Vec<char>) -> (r: bool)
    ensures
        r == all_ascii(v@),
{
    let mut i: usize = 0;
    while i < v.len()
        invariant
            i <= v@.len(),
            forall|k: int| 0 <= k < i ==> is_ascii_char(#[trigger] v@[k]),
        decreases v@.len() - i,
    {
        if (v[i] as u32) >= 128 {
            return false;
        }
        i = i + 1;
    }
    true
}

proof fn lemma_digits_value_push(s: Seq<char>, c: char)
    ensures
        digits_value(s.push(c)) == digits_value(s) * 10 + (c as nat - '0' as nat) as nat,
{
    assert(s.push(c).drop_last() =~= s);
}

/// The characters of `s`, one per element.
pub fn chars_of(s: &str) -> (r: Vec<char>)
    ensures
        r@ == s@,
{
    let n = s.unicode_len();
    let mut r: Vec<char> = Vec::new();
    let mut i: usize = 0;
    while i < n
        invariant
            n == s@.len(),
            i <= n,
            r@ == s@.subrange(0, i as int),
        decreases n - i,
    {
        r.push(s.get_char(i));
        i = i + 1;
        assert(r@ =~= s@.subrange(0, i as int));
    }
    assert(r@ =~= s@);
    r
}

/// The value of `v[from..to]` read as decimal digits: `None` when it is
/// empty, holds a non-digit, or does not fit in 64 bits.
pub fn digits_in(v: &Vec<char>, from: usize, to: usize) -> (r: Option<u64>)
    requires
        from <= to <= v@.len(),
    ensures
        ({
            let d = v@.subrange(from as int, to as int);
            r == (if d.len() > 0 && all_digits(d) && digits_value(d) <= u64::MAX {
                Some(digits_value(d) as u64)
            } else {
                None
            })
        }),
{
    if from == to {
        return None;
    }
    let ghost whole = v@.subrange(from as int, to as int);
    let mut value: u64 = 0;
    let mut i: usize = from;
    while i < to
        invariant
            from <= i <= to,
            to <= v@.len(),
            whole == v@.subrange(from as int, to as int),
            all_digits(v@.subrange(from as int, i as int)),
            value as nat == digits_value(v@.subrange(from as int, i as int)),
        decreases to - i,
    {
        let c = v[i];
        let ghost prefix = v@.subrange(from as int, i as int);
        let ghost next = v@.subrange(from as int, i as int + 1);
        assert(next =~= prefix.push(c));
        assert(whole.subrange(0, next.len() as int) =~= next);
        proof {
            lemma_digits_value_push(prefix, c);
        }
        if !('0' <= c && c <= '9') {
            assert(!all_digits(whole)) by {
                assert(whole[i - from] == c);
            }
            return None;
        }
        let d: u64 = (c as u32 - '0' as u32) as u64;
        match value.checked_mul(10) {
            Some(m) => match m.checked_add(d) {
                Some(x) => {
                    value = x;
                },
                None => {
                    proof {
                        lemma_overflow_rejects(whole, next);
                    }
                    return None;
                },
            },
            None => {
                proof {
                    lemma_overflow_rejects(whole, next);
                }
                return None;
            },
        }
        i = i + 1;
        assert(all_digits(v@.subrange(from as int, i as int))) by {
            assert forall|k: int| 0 <= k < next.len() implies is_digit(#[trigger] next[k]) by {
                if k < prefix.len() {
                    assert(next[k] == prefix[k]);
                }
            }
        }
    }
    assert(whole =~= v@.subrange(from as int, i as int));
    Some(value)
}

/// A prefix of a digit string has a value no greater than the whole.
proof fn lemma_prefix_value_bounds(s: Seq<char>, k: nat)
    requires
        k <= s.len(),
        all_digits(s),
    ensures
        digits_value(s.subrange(0, k as int)) <= digits_value(s),
    decreases s.len(),
{
    if k < s.len() {
        let t = s.drop_last();
        assert(t.subrange(0, k as int) =~= s.subrange(0, k as int));
        assert(all_digits(t)) by {
            assert forall|i: int| 0 <= i < t.len() implies is_digit(#[trigger] t[i]) by {
                assert(t[i] == s[i]);
            }
        }
        lemma_prefix_value_bounds(t, k);
        assert(is_digit(s[s.len() - 1]));
    } else {
        assert(s.subrange(0, k as int) =~= s);
    }
}

/// Once a prefix of the digits is too large, so is the whole number.
proof fn lemma_overflow_rejects(s: Seq<char>, prefix: Seq<char>)
    requires
        prefix.len() <= s.len(),
        s.subrange(0, prefix.len() as int) == prefix,
        digits_value(prefix) > u64::MAX,
    ensures
        !(all_digits(s) && digits_value(s) <= u64::MAX),
{
    if all_digits(s) {
        lemma_prefix_value_bounds(s, prefix.len());
    }
}

/// Parses `s` as an unsigned 64-bit decimal number, as `str::parse::<u64>`
/// does: an optional `+`, then digits only.
pub fn parse_u64(s: &str) -> (r: Option<u64>)
    ensures
        r == decimal_u64(s@),
{
    let v = chars_of(s);
    assert(v@.subrange(0, v@.len() as int) =~= s@);
    decimal_in(&v, 0, v.len())
}

/// Parses `v[from..to]` as `parse_u64` does.
pub fn decimal_in(v: &Vec<char>, from: usize, to: usize) -> (r: Option<u64>)
    requires
        from <= to <= v@.len(),
    ensures
        r == decimal_u64(v@.subrange(from as int, to as int)),
{
    let start: usize = if from < to && v[from] == '+' { from + 1 } else { from };
    assert(v@.subrange(start as int, to as int) =~= unsigned_digits(v@.subrange(from as int, to as int)));
    digits_in(v, start, to)
}

} // verus!
