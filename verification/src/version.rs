//! Encoding of a `<major>.<minor>.<patch>` version string as the numeric
//! `MMmmpp` version that Bitcoin Core reports.

use vstd::prelude::*;
use crate::text::{chars_of, decimal, digit_char};

verus! {

/// A character in `'0'..='9'`.
pub open spec fn is_ascii_digit(c: char) -> bool {
    '0' <= c && c <= '9'
}

/// The numeric value of a decimal digit character.
pub open spec fn digit_value(c: char) -> nat {
    (c as int - '0' as int) as nat
}

/// Every character of `s` is a decimal digit.
pub open spec fn all_digits(s: Seq<char>) -> bool {
    forall|i: int| 0 <= i < s.len() ==> is_ascii_digit(#[trigger] s[i])
}

/// The number that a string of decimal digits denotes.
pub open spec fn digits_value(s: Seq<char>) -> nat
    decreases s.len(),
{
    if s.len() == 0 {
        0
    } else {
        digits_value(s.drop_last()) * 10 + digit_value(s.last())
    }
}

/// What `str::parse::<usize>` yields: an optional `+`, then at least one
/// decimal digit and nothing else, denoting a value that fits in a `usize`.
pub open spec fn parse_usize(s: Seq<char>) -> Option<nat> {
    let digits = if s.len() > 0 && s[0] == '+' { s.drop_first() } else { s };
    if digits.len() > 0 && all_digits(digits) && digits_value(digits) <= usize::MAX {
        Some(digits_value(digits))
    } else {
        None
    }
}

/// The longest prefix of `s` made of decimal digits.
pub open spec fn digit_prefix(s: Seq<char>) -> Seq<char>
    decreases s.len(),
{
    if s.len() > 0 && is_ascii_digit(s[0]) {
        seq![s[0]] + digit_prefix(s.drop_first())
    } else {
        Seq::empty()
    }
}

/// The position of the first `.` in `s`, if any.
pub open spec fn first_dot(s: Seq<char>) -> Option<int>
    decreases s.len(),
{
    if s.len() == 0 {
        None
    } else if s[0] == '.' {
        Some(0)
    } else {
        match first_dot(s.drop_first()) {
            Some(i) => Some(i + 1),
            None => None,
        }
    }
}

/// `s` cut at its first `.`: the text before it, and the text after it when
/// there is one (one step of `str::splitn` on `.`).
pub open spec fn split_first_dot(s: Seq<char>) -> (Seq<char>, Option<Seq<char>>) {
    match first_dot(s) {
        Some(i) => (s.take(i), Some(s.skip(i + 1))),
        None => (s, None),
    }
}

/// `n` clamped to `usize::MAX`, as saturating arithmetic gives it.
pub open spec fn saturate(n: nat) -> nat {
    if n > usize::MAX {
        usize::MAX as nat
    } else {
        n
    }
}

/// The major, minor and patch numbers of a version string: the first,
/// second and remaining text between dots (at most three parts), of which
/// only the leading digits count for the patch. A missing minor or patch
/// part counts as zero; `None` when a part that is present does not parse,
/// so that a malformed version has no parts.
pub open spec fn version_parts(version: Seq<char>) -> Option<(nat, nat, nat)> {
    let (p0, rest) = split_first_dot(version);
    match parse_usize(p0) {
        None => None,
        Some(major) => match rest {
            None => Some((major, 0nat, 0nat)),
            Some(r) => {
                let (p1, rest2) = split_first_dot(r);
                match parse_usize(p1) {
                    None => None,
                    Some(minor) => match rest2 {
                        None => Some((major, minor, 0nat)),
                        Some(p2) => match parse_usize(digit_prefix(p2)) {
                            None => None,
                            Some(patch) => Some((major, minor, patch)),
                        },
                    },
                }
            },
        },
    }
}

/// Bitcoin Core's `MMmmpp` number for a version string:
/// `major * 10000 + minor * 100 + patch`, each step saturating at
/// `usize::MAX`, and zero for a malformed version.
pub open spec fn mmmmpp(version: Seq<char>) -> nat {
    match version_parts(version) {
        None => 0,
        Some((major, minor, patch)) => saturate(
            saturate(saturate(major * 10000) + saturate(minor * 100)) + patch,
        ),
    }
}

/// `usize::saturating_mul` is the product, clamped to `usize::MAX`.
pub assume_specification[ <usize>::saturating_mul ](x: usize, y: usize) -> (r: usize)
    ensures
        r == saturate((x * y) as nat),
;

proof fn lemma_first_dot_found(s: Seq<char>, i: int)
    requires
        0 <= i < s.len(),
        s[i] == '.',
        forall|j: int| 0 <= j < i ==> s[j] != '.',
    ensures
        first_dot(s) == Some(i),
    decreases s.len(),
{
    if i > 0 {
        lemma_first_dot_found(s.drop_first(), i - 1);
    }
}

proof fn lemma_first_dot_absent(s: Seq<char>)
    requires
        forall|j: int| 0 <= j < s.len() ==> s[j] != '.',
    ensures
        first_dot(s) is None,
    decreases s.len(),
{
    if s.len() > 0 {
        lemma_first_dot_absent(s.drop_first());
    }
}

proof fn lemma_digit_prefix(s: Seq<char>, k: int)
    requires
        0 <= k <= s.len(),
        forall|j: int| 0 <= j < k ==> is_ascii_digit(#[trigger] s[j]),
        k == s.len() || !is_ascii_digit(s[k]),
    ensures
        digit_prefix(s) == s.take(k),
    decreases s.len(),
{
    if k == 0 {
        assert(s.take(0) =~= Seq::<char>::empty());
    } else {
        let t = s.drop_first();
        assert forall|j: int| 0 <= j < k - 1 implies is_ascii_digit(#[trigger] t[j]) by {
            assert(t[j] == s[j + 1]);
        }
        lemma_digit_prefix(t, k - 1);
        assert(seq![s[0]] + t.take(k - 1) =~= s.take(k));
    }
}

proof fn lemma_digits_value_push(s: Seq<char>, c: char)
    ensures
        digits_value(s.push(c)) == digits_value(s) * 10 + digit_value(c),
{
    assert(s.push(c).drop_last() =~= s);
}

proof fn lemma_digits_value_monotone(s: Seq<char>, k: int)
    requires
        0 <= k <= s.len(),
    ensures
        digits_value(s.take(k)) <= digits_value(s),
    decreases s.len() - k,
{
    if k == s.len() {
        assert(s.take(k) =~= s);
    } else {
        lemma_digits_value_monotone(s, k + 1);
        assert(s.take(k + 1) =~= s.take(k).push(s[k]));
        lemma_digits_value_push(s.take(k), s[k]);
    }
}

/// Position of the first `.` at or after `start`.
fn find_dot(s: &Vec<char>, start: usize) -> (r: Option<usize>)
    requires
        start <= s@.len(),
    ensures
        match r {
            Some(i) => start <= i < s@.len() && s@[i as int] == '.' && forall|j: int|
                start <= j < i ==> s@[j] != '.',
            None => forall|j: int| start <= j < s@.len() ==> s@[j] != '.',
        },
{
    let mut i = start;
    while i < s.len()
        invariant
            start <= i <= s@.len(),
            forall|j: int| start <= j < i ==> s@[j] != '.',
        decreases s@.len() - i,
    {
        if s[i] == '.' {
            return Some(i);
        }
        i += 1;
    }
    None
}

/// The first `.` at or after `start`, stated over the text from `start`.
fn split_dot_at(s: &Vec<char>, start: usize) -> (r: Option<usize>)
    requires
        start <= s@.len(),
    ensures
        match r {
            Some(i) => start <= i < s@.len() && first_dot(s@.skip(start as int)) == Some(
                i - start,
            ),
            None => first_dot(s@.skip(start as int)) is None,
        },
{
    let r = find_dot(s, start);
    proof {
        let t = s@.skip(start as int);
        match r {
            Some(i) => {
                assert forall|j: int| 0 <= j < i - start implies t[j] != '.' by {
                    assert(t[j] == s@[start + j]);
                }
                lemma_first_dot_found(t, i - start);
            },
            None => {
                assert forall|j: int| 0 <= j < t.len() implies t[j] != '.' by {
                    assert(t[j] == s@[start + j]);
                }
                lemma_first_dot_absent(t);
            },
        }
    }
    r
}

/// The end of the run of digits that starts at `start`.
fn digit_run_end(s: &Vec<char>, start: usize) -> (k: usize)
    requires
        start <= s@.len(),
    ensures
        start <= k <= s@.len(),
        digit_prefix(s@.skip(start as int)) == s@.subrange(start as int, k as int),
{
    let mut k = start;
    while k < s.len() && '0' <= s[k] && s[k] <= '9'
        invariant
            start <= k <= s@.len(),
            forall|j: int| start <= j < k ==> is_ascii_digit(#[trigger] s@[j]),
        decreases s@.len() - k,
    {
        k += 1;
    }
    proof {
        let t = s@.skip(start as int);
        assert forall|j: int| 0 <= j < k - start implies is_ascii_digit(#[trigger] t[j]) by {
            assert(t[j] == s@[start + j]);
        }
        lemma_digit_prefix(t, k - start);
        assert(t.take(k - start) =~= s@.subrange(start as int, k as int));
    }
    k
}

/// `str::parse::<usize>` of the characters `s[from..to]`.
fn parse_usize_range(s: &Vec<char>, from: usize, to: usize) -> (r: Option<usize>)
    requires
        from <= to <= s@.len(),
    ensures
        match parse_usize(s@.subrange(from as int, to as int)) {
            Some(n) => r == Some(n as usize),
            None => r is None,
        },
{
    let ghost whole = s@.subrange(from as int, to as int);
    let start = if from < to && s[from] == '+' { from + 1 } else { from };
    let ghost digits = s@.subrange(start as int, to as int);
    assert(digits =~= (if whole.len() > 0 && whole[0] == '+' { whole.drop_first() } else { whole }));
    if start == to {
        return None;
    }
    let mut acc: usize = 0;
    let mut i = start;
    while i < to
        invariant
            from <= start <= i <= to <= s@.len(),
            start < to,
            whole == s@.subrange(from as int, to as int),
            digits == s@.subrange(start as int, to as int),
            digits == (if whole.len() > 0 && whole[0] == '+' { whole.drop_first() } else { whole }),
            forall|j: int| start <= j < i ==> is_ascii_digit(#[trigger] s@[j]),
            acc == digits_value(s@.subrange(start as int, i as int)),
        decreases to - i,
    {
        let c = s[i];
        if !('0' <= c && c <= '9') {
            assert(!is_ascii_digit(digits[i - start]));
            return None;
        }
        let d = (c as u32 - '0' as u32) as usize;
        proof {
            assert(s@.subrange(start as int, i + 1) =~= s@.subrange(start as int, i as int).push(c));
            lemma_digits_value_push(s@.subrange(start as int, i as int), c);
        }
        match acc.checked_mul(10) {
            Some(m) => match m.checked_add(d) {
                Some(v) => {
                    acc = v;
                },
                None => {
                    proof { lemma_overflow_fails(s, start, i + 1, to); }
                    return None;
                },
            },
            None => {
                proof { lemma_overflow_fails(s, start, i + 1, to); }
                return None;
            },
        }
        i += 1;
    }
    assert(s@.subrange(start as int, i as int) =~= digits);
    Some(acc)
}

proof fn lemma_overflow_fails(s: &Vec<char>, start: usize, k: int, to: usize)
    requires
        start < k <= to <= s@.len(),
        digits_value(s@.subrange(start as int, k)) > usize::MAX,
    ensures
        !(all_digits(s@.subrange(start as int, to as int)) && digits_value(
            s@.subrange(start as int, to as int),
        ) <= usize::MAX),
{
    let d = s@.subrange(start as int, to as int);
    assert(d.take(k - start) =~= s@.subrange(start as int, k));
    lemma_digits_value_monotone(d, k - start);
}

/// Encodes a `"<major>.<minor>.<patch>"` version string as Bitcoin Core's
/// numeric `MMmmpp` version; a malformed version gives zero.
pub fn parse_mmmmpp(version: &str) -> (r: usize)
    ensures
        r == mmmmpp(version@),
{
    let s = chars_of(version);
    let len = s.len();
    let ghost v = s@;
    assert(v.skip(0) =~= v);
    let first = split_dot_at(&s, 0);
    let major_end = match first {
        None => len,
        Some(i) => i,
    };
    proof {
        match first {
            Some(i) => {
                assert(v.take(i as int) =~= v.subrange(0, i as int));
            },
            None => {
                assert(v =~= v.subrange(0, len as int));
            },
        }
    }
    let major = match parse_usize_range(&s, 0, major_end) {
        Some(n) => n,
        None => {
            return 0;
        },
    };
    let m = match first {
        None => {
            return major.saturating_mul(10_000);
        },
        Some(i) => i + 1,
    };
    let second = split_dot_at(&s, m);
    let minor_end = match second {
        None => len,
        Some(j) => j,
    };
    proof {
        let r = v.skip(m as int);
        match second {
            Some(j) => {
                assert(r.take(j - m) =~= v.subrange(m as int, j as int));
                assert(r.skip(j - m + 1) =~= v.skip(j + 1));
            },
            None => {
                assert(r =~= v.subrange(m as int, len as int));
            },
        }
    }
    let minor = match parse_usize_range(&s, m, minor_end) {
        Some(n) => n,
        None => {
            return 0;
        },
    };
    let patch = match second {
        None => 0,
        Some(j) => {
            let k = digit_run_end(&s, j + 1);
            match parse_usize_range(&s, j + 1, k) {
                Some(n) => n,
                None => {
                    return 0;
                },
            }
        },
    };
    major.saturating_mul(10_000).saturating_add(minor.saturating_mul(100)).saturating_add(patch)
}

proof fn lemma_digit_char(d: nat)
    requires
        d < 10,
    ensures
        is_ascii_digit(digit_char(d)),
        digit_value(digit_char(d)) == d,
        digit_char(d) != '.',
        digit_char(d) != '+',
{
}

proof fn lemma_decimal_digits(n: nat)
    ensures
        decimal(n).len() > 0,
        all_digits(decimal(n)),
        digits_value(decimal(n)) == n,
    decreases n,
{
    if n < 10 {
        lemma_digit_char(n);
        let s = decimal(n);
        assert(s.drop_last() =~= Seq::<char>::empty());
        assert(s.last() == digit_char(n));
        assert(digits_value(s.drop_last()) == 0);
    } else {
        lemma_decimal_digits(n / 10);
        lemma_digit_char(n % 10);
        lemma_digits_value_push(decimal(n / 10), digit_char(n % 10));
        let s = decimal(n);
        assert forall|i: int| 0 <= i < s.len() implies is_ascii_digit(#[trigger] s[i]) by {
            if i < s.len() - 1 {
                assert(s[i] == decimal(n / 10)[i]);
            }
        }
    }
}

proof fn lemma_parse_decimal(n: nat)
    requires
        n <= usize::MAX,
    ensures
        parse_usize(decimal(n)) == Some(n),
{
    lemma_decimal_digits(n);
}

proof fn lemma_split_after_decimal(n: nat, rest: Seq<char>)
    ensures
        split_first_dot(decimal(n) + seq!['.'] + rest) == (decimal(n), Some(rest)),
{
    let d = decimal(n);
    let s = d + seq!['.'] + rest;
    lemma_decimal_digits(n);
    assert forall|j: int| 0 <= j < d.len() implies s[j] != '.' by {
        assert(s[j] == d[j]);
        assert(is_ascii_digit(d[j]));
    }
    lemma_first_dot_found(s, d.len() as int);
    assert(s.take(d.len() as int) =~= d);
    assert(s.skip(d.len() as int + 1) =~= rest);
}

proof fn lemma_digit_prefix_of_decimal(n: nat, suffix: Seq<char>)
    requires
        suffix.len() == 0 || !is_ascii_digit(suffix[0]),
    ensures
        digit_prefix(decimal(n) + suffix) == decimal(n),
{
    let d = decimal(n);
    let s = d + suffix;
    lemma_decimal_digits(n);
    assert forall|j: int| 0 <= j < d.len() implies is_ascii_digit(#[trigger] s[j]) by {
        assert(s[j] == d[j]);
    }
    lemma_digit_prefix(s, d.len() as int);
    assert(s.take(d.len() as int) =~= d);
}

/// A version written `<major>.<minor>.<patch>` in decimal, possibly
/// followed by a pre-release or build suffix that does not start with a
/// digit, encodes as `major * 10000 + minor * 100 + patch` whenever that
/// fits in a `usize`.
pub proof fn lemma_mmmmpp_of_version(major: nat, minor: nat, patch: nat, suffix: Seq<char>)
    requires
        major * 10000 + minor * 100 + patch <= usize::MAX,
        suffix.len() == 0 || !is_ascii_digit(suffix[0]),
    ensures
        mmmmpp(decimal(major) + seq!['.'] + decimal(minor) + seq!['.'] + decimal(patch) + suffix)
            == major * 10000 + minor * 100 + patch,
{
    let tail = decimal(patch) + suffix;
    let rest = decimal(minor) + seq!['.'] + tail;
    let v = decimal(major) + seq!['.'] + decimal(minor) + seq!['.'] + decimal(patch) + suffix;
    assert(v =~= decimal(major) + seq!['.'] + rest);
    lemma_split_after_decimal(major, rest);
    lemma_split_after_decimal(minor, tail);
    lemma_digit_prefix_of_decimal(patch, suffix);
    lemma_parse_decimal(major);
    lemma_parse_decimal(minor);
    lemma_parse_decimal(patch);
}

/// A version string without any decimal digit is malformed and encodes as zero.
pub proof fn lemma_mmmmpp_without_digits(version: Seq<char>)
    requires
        forall|i: int| 0 <= i < version.len() ==> !is_ascii_digit(#[trigger] version[i]),
    ensures
        version_parts(version) is None,
        mmmmpp(version) == 0,
{
    let p0 = split_first_dot(version).0;
    lemma_first_dot_bounds(version);
    assert forall|j: int| 0 <= j < p0.len() implies !is_ascii_digit(#[trigger] p0[j]) by {
        assert(p0[j] == version[j]);
    }
    if p0.len() > 0 && p0[0] == '+' {
        let t = p0.drop_first();
        if t.len() > 0 {
            assert(t[0] == p0[1]);
            assert(!is_ascii_digit(t[0]));
        }
    } else if p0.len() > 0 {
        assert(!is_ascii_digit(p0[0]));
    }
}

/// A version whose major part, or whose minor part when there is one,
/// does not parse is malformed and encodes as zero, whatever follows.
pub proof fn lemma_mmmmpp_malformed_is_zero(version: Seq<char>)
    ensures
        parse_usize(split_first_dot(version).0) is None ==> mmmmpp(version) == 0,
        (split_first_dot(version).1 matches Some(r) && parse_usize(split_first_dot(r).0) is None)
            ==> mmmmpp(version) == 0,
{
}

proof fn lemma_first_dot_bounds(s: Seq<char>)
    ensures
        first_dot(s) matches Some(i) ==> 0 <= i < s.len() && s[i] == '.',
    decreases s.len(),
{
    if s.len() > 0 && s[0] != '.' {
        lemma_first_dot_bounds(s.drop_first());
    }
}

} // verus!
