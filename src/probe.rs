use vstd::prelude::*;

verus! {

/// ASCII whitespace: space, tab, line feed, vertical tab, form feed, carriage return.
pub open spec fn is_space(b: u8) -> bool {
    b == 32 || (9 <= b && b <= 13)
}

pub open spec fn is_digit(b: u8) -> bool {
    48 <= b && b <= 57
}

/// The index of the first line feed at or after `i`, or the length.
pub open spec fn line_end(s: Seq<u8>, i: int) -> int
    decreases s.len() - i,
{
    if i >= s.len() || i < 0 {
        s.len() as int
    } else if s[i] == 10 {
        i
    } else {
        line_end(s, i + 1)
    }
}

/// The first index in `[i, end)` that is not whitespace, or `end`.
pub open spec fn skip_space(s: Seq<u8>, i: int, end: int) -> int
    decreases end - i,
{
    if i >= end {
        end
    } else if is_space(s[i]) {
        skip_space(s, i + 1, end)
    } else {
        i
    }
}

/// `end` moved left past trailing whitespace, never before `start`.
pub open spec fn trim_back(s: Seq<u8>, start: int, end: int) -> int
    decreases end - start,
{
    if end <= start {
        start
    } else if is_space(s[end - 1]) {
        trim_back(s, start, end - 1)
    } else {
        end
    }
}

/// The first comma in `[i, end)`, or `end`.
pub open spec fn field_end(s: Seq<u8>, i: int, end: int) -> int
    decreases end - i,
{
    if i >= end {
        end
    } else if s[i] == 44 {
        i
    } else {
        field_end(s, i + 1, end)
    }
}

/// The decimal value of the digits in `[i, j)`.
pub open spec fn digits_value(s: Seq<u8>, i: int, j: int) -> int
    decreases j - i,
{
    if j <= i {
        0
    } else {
        digits_value(s, i, j - 1) * 10 + (s[j - 1] - 48)
    }
}

/// An unsigned decimal in `[i, j)`: an optional `+`, then one or more digits,
/// with a value that fits in `usize`.
pub open spec fn parse_decimal(s: Seq<u8>, i: int, j: int) -> Option<usize> {
    let d = if i < j && s[i] == 43 { i + 1 } else { i };
    if d < j && (forall|k: int| d <= k < j ==> is_digit(#[trigger] s[k])) && digits_value(s, d, j)
        <= usize::MAX {
        Some(digits_value(s, d, j) as usize)
    } else {
        None
    }
}

/// The picture size in a prober's report: its first line, trimmed of
/// whitespace, holds the width and the height as the first two
/// comma-separated fields.
pub open spec fn video_size_of(s: Seq<u8>) -> Option<(usize, usize)> {
    let e = line_end(s, 0);
    let a = skip_space(s, 0, e);
    let b = trim_back(s, a, e);
    let c = field_end(s, a, b);
    if c >= b {
        None
    } else {
        match (parse_decimal(s, a, c), parse_decimal(s, c + 1, field_end(s, c + 1, b))) {
            (Some(w), Some(h)) => Some((w, h)),
            _ => None,
        }
    }
}

proof fn lemma_digits_nonneg(s: Seq<u8>, i: int, j: int)
    requires
        0 <= i,
        j <= s.len(),
        forall|m: int| i <= m < j ==> is_digit(#[trigger] s[m]),
    ensures
        0 <= digits_value(s, i, j),
    decreases j - i,
{
    if j > i {
        lemma_digits_nonneg(s, i, j - 1);
    }
}

proof fn lemma_digits_monotone(s: Seq<u8>, i: int, k: int, j: int)
    requires
        0 <= i <= k <= j <= s.len(),
        forall|m: int| i <= m < j ==> is_digit(#[trigger] s[m]),
    ensures
        0 <= digits_value(s, i, k) <= digits_value(s, i, j),
    decreases j - k,
{
    lemma_digits_nonneg(s, i, k);
    if k < j {
        lemma_digits_monotone(s, i, k, j - 1);
        lemma_digits_nonneg(s, i, j - 1);
        assert(is_digit(s[j - 1]));
    }
}

fn parse_decimal_at(s: &Vec<u8>, i: usize, j: usize) -> (r: Option<usize>)
    requires
        i <= j <= s@.len(),
    ensures
        r == parse_decimal(s@, i as int, j as int),
{
    let d: usize = if i < j && s[i] == 43 {
        i + 1
    } else {
        i
    };
    if d >= j {
        return None;
    }
    let mut k: usize = d;
    while k < j
        invariant
            d <= k <= j <= s@.len(),
            i <= j,
            d == (if i < j && s@[i as int] == 43 { i + 1 } else { i as int }),
            forall|m: int| d <= m < k ==> is_digit(#[trigger] s@[m]),
        decreases j - k,
    {
        if !(48 <= s[k] && s[k] <= 57) {
            assert(!is_digit(s@[k as int]));
            return None;
        }
        k = k + 1;
    }
    let mut acc: usize = 0;
    let mut k: usize = d;
    while k < j
        invariant
            d <= k <= j <= s@.len(),
            i <= j,
            d == (if i < j && s@[i as int] == 43 { i + 1 } else { i as int }),
            forall|m: int| d <= m < j ==> is_digit(#[trigger] s@[m]),
            acc == digits_value(s@, d as int, k as int),
        decreases j - k,
    {
        let digit: usize = (s[k] - 48) as usize;
        proof {
            lemma_digits_monotone(s@, d as int, k as int + 1, j as int);
            assert(is_digit(s@[k as int]));
            assert(digits_value(s@, d as int, k as int + 1) == acc * 10 + digit);
        }
        match acc.checked_mul(10) {
            Some(t) => match t.checked_add(digit) {
                Some(v) => {
                    acc = v;
                },
                None => {
                    assert(digits_value(s@, d as int, j as int) > usize::MAX);
                    return None;
                },
            },
            None => {
                assert(digits_value(s@, d as int, j as int) > usize::MAX);
                return None;
            },
        }
        k = k + 1;
    }
    Some(acc)
}

/// Reads the picture size from a prober's report: the first line, trimmed of
/// ASCII whitespace, must start with two comma-separated unsigned decimals
/// (width, then height); anything else gives `None`.
pub fn parse_video_size(s: &Vec<u8>) -> (r: Option<(usize, usize)>)
    ensures
        r == video_size_of(s@),
{
    let n: usize = s.len();
    let mut e: usize = 0;
    while e < n && s[e] != 10
        invariant
            e <= n == s@.len(),
            line_end(s@, e as int) == line_end(s@, 0),
        decreases n - e,
    {
        e = e + 1;
    }
    let mut a: usize = 0;
    while a < e && (s[a] == 32 || (9 <= s[a] && s[a] <= 13))
        invariant
            a <= e <= n == s@.len(),
            e == line_end(s@, 0),
            skip_space(s@, a as int, e as int) == skip_space(s@, 0, e as int),
        decreases e - a,
    {
        a = a + 1;
    }
    let mut b: usize = e;
    while b > a && (s[b - 1] == 32 || (9 <= s[b - 1] && s[b - 1] <= 13))
        invariant
            a <= b <= e <= n == s@.len(),
            e == line_end(s@, 0),
            a == skip_space(s@, 0, e as int),
            trim_back(s@, a as int, b as int) == trim_back(s@, a as int, e as int),
        decreases b - a,
    {
        b = b - 1;
    }
    let mut c: usize = a;
    while c < b && s[c] != 44
        invariant
            a <= c <= b <= n == s@.len(),
            field_end(s@, c as int, b as int) == field_end(s@, a as int, b as int),
        decreases b - c,
    {
        c = c + 1;
    }
    if c >= b {
        return None;
    }
    let mut c2: usize = c + 1;
    while c2 < b && s[c2] != 44
        invariant
            c + 1 <= c2 <= b <= n == s@.len(),
            field_end(s@, c2 as int, b as int) == field_end(s@, c + 1, b as int),
        decreases b - c2,
    {
        c2 = c2 + 1;
    }
    let w = parse_decimal_at(s, a, c);
    let h = parse_decimal_at(s, c + 1, c2);
    match (w, h) {
        (Some(w), Some(h)) => Some((w, h)),
        _ => None,
    }
}

} // verus!
