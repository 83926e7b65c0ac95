use vstd::prelude::*;

verus! {

/// Whether the pattern occurs in the haystack starting at position `i`.
pub open spec fn matches_at(hay: Seq<u8>, pat: Seq<u8>, i: int) -> bool {
    0 <= i && i + pat.len() <= hay.len() && hay.subrange(i, i + pat.len() as int) == pat
}

/// The first position at or after `i` where the pattern occurs, if any.
pub open spec fn first_match_from(hay: Seq<u8>, pat: Seq<u8>, i: int) -> Option<int>
    decreases hay.len() - i when 0 <= i && 1 <= pat.len()
{
    if i + pat.len() > hay.len() {
        None
    } else if matches_at(hay, pat, i) {
        Some(i)
    } else {
        first_match_from(hay, pat, i + 1)
    }
}

/// The first position at or after `i` holding the byte `b`, if any.
pub open spec fn first_byte_from(hay: Seq<u8>, b: u8, i: int) -> Option<int>
    decreases hay.len() - i when 0 <= i
{
    if i >= hay.len() {
        None
    } else if hay[i] == b {
        Some(i)
    } else {
        first_byte_from(hay, b, i + 1)
    }
}

/// Whether the pattern occurs in the haystack starting exactly at `at`,
/// decided by comparing bytes.
fn check_match(hay: &[u8], pat: &[u8], at: usize) -> (r: bool)
    requires
        at + pat@.len() <= hay@.len(),
        hay@.len() <= usize::MAX,
    ensures
        r == matches_at(hay@, pat@, at as int),
{
    let mut j: usize = 0;
    while j < pat.len()
        invariant
            at + pat@.len() <= hay@.len(),
            hay@.len() <= usize::MAX,
            j <= pat@.len(),
            forall|k: int| 0 <= k < j ==> hay@[at + k] == pat@[k],
        decreases pat@.len() - j,
    {
        if hay[at + j] != pat[j] {
            assert(hay@.subrange(at as int, at + pat@.len() as int)[j as int] != pat@[j as int]);
            return false;
        }
        j = j + 1;
    }
    proof {
        assert(hay@.subrange(at as int, at + pat@.len() as int) =~= pat@);
    }
    true
}

/// The first occurrence of the pattern in the haystack, scanning left to
/// right.
pub fn find_pattern(hay: &[u8], pat: &[u8]) -> (r: Option<usize>)
    requires
        1 <= pat@.len(),
    ensures
        match r {
            Some(i) => first_match_from(hay@, pat@, 0) == Some(i as int),
            None => first_match_from(hay@, pat@, 0) is None,
        },
{
    let hay_len: usize = hay.len();
    let pat_len: usize = pat.len();
    if pat_len > hay_len {
        return None;
    }
    let mut i: usize = 0;
    let last: usize = hay_len - pat_len;
    while i <= last
        invariant
            hay_len == hay@.len(),
            pat_len == pat@.len(),
            1 <= pat_len <= hay_len,
            last == hay_len - pat_len,
            i <= last + 1,
            first_match_from(hay@, pat@, 0) == first_match_from(hay@, pat@, i as int),
        decreases last + 1 - i,
    {
        if check_match(hay, pat, i) {
            return Some(i);
        }
        i = i + 1;
    }
    None
}

/// The first occurrence of the byte at or after `from`, scanning left to
/// right.
pub fn find_byte(hay: &[u8], b: u8, from: usize) -> (r: Option<usize>)
    requires
        from <= hay@.len(),
    ensures
        match r {
            Some(i) => first_byte_from(hay@, b, from as int) == Some(i as int),
            None => first_byte_from(hay@, b, from as int) is None,
        },
{
    let mut i: usize = from;
    while i < hay.len()
        invariant
            from <= i <= hay@.len(),
            first_byte_from(hay@, b, from as int) == first_byte_from(hay@, b, i as int),
        decreases hay@.len() - i,
    {
        if hay[i] == b {
            return Some(i);
        }
        i = i + 1;
    }
    None
}

/// Whether the byte is an ASCII decimal digit.
pub open spec fn spec_is_digit(b: u8) -> bool {
    48 <= b <= 57
}

/// The end of the maximal digit run starting at `i`: the first position at
/// or after `i` holding a non-digit, or the length of the sequence.
pub open spec fn digit_run_end(s: Seq<u8>, i: int) -> int
    decreases s.len() - i when 0 <= i
{
    if i >= s.len() {
        s.len() as int
    } else if spec_is_digit(s[i]) {
        digit_run_end(s, i + 1)
    } else {
        i
    }
}

/// The value of the decimal digits of `s` between `i` and `j`, read left to
/// right.
pub open spec fn digits_value(s: Seq<u8>, i: int, j: int) -> nat
    decreases j - i when i <= j
{
    if i >= j {
        0
    } else {
        digits_value(s, i, j - 1) * 10 + (s[j - 1] - 48) as nat
    }
}

/// The decimal number starting at position `i`, if a digit run of length one
/// to nineteen starts there; a run of twenty or more digits is rejected so
/// that the value always fits the machine word it is carried in.
pub open spec fn spec_number_at(s: Seq<u8>, i: int) -> Option<nat> {
    let end = digit_run_end(s, i);
    if end == i || end - i > 19 {
        None
    } else {
        Some(digits_value(s, i, end))
    }
}

/// Ten to the given power.
pub open spec fn pow10(n: nat) -> nat
    decreases n,
{
    if n == 0 {
        1
    } else {
        pow10((n - 1) as nat) * 10
    }
}

/// Ten to the eighteenth, written out.
proof fn lemma_pow10_18()
    ensures
        pow10(18) == 1_000_000_000_000_000_000,
{
    reveal_with_fuel(pow10, 20);
}

/// Ten to a smaller power is no larger.
proof fn lemma_pow10_monotone(a: nat, b: nat)
    requires
        a <= b,
    ensures
        pow10(a) <= pow10(b),
    decreases b,
{
    if a < b {
        lemma_pow10_monotone(a, (b - 1) as nat);
        assert(pow10(b) == pow10((b - 1) as nat) * 10);
    }
}

/// The end of a digit run lies at or beyond its start.
proof fn lemma_digit_run_end_ge(s: Seq<u8>, i: int)
    requires
        0 <= i <= s.len(),
    ensures
        digit_run_end(s, i) >= i,
    decreases s.len() - i,
{
    if i < s.len() && spec_is_digit(s[i]) {
        lemma_digit_run_end_ge(s, i + 1);
    }
}

/// Reads the decimal number starting at position `from`: the maximal digit
/// run, rejected when empty or longer than nineteen digits.
pub fn parse_number_at(s: &[u8], from: usize) -> (r: Option<u64>)
    requires
        from <= s@.len(),
    ensures
        match r {
            Some(n) => spec_number_at(s@, from as int) == Some(n as nat),
            None => spec_number_at(s@, from as int) is None,
        },
{
    let mut i: usize = from;
    let mut value: u64 = 0;
    while i < s.len() && s[i] >= 48 && s[i] <= 57
        invariant
            from <= i <= s@.len(),
            i - from <= 19,
            forall|k: int| from <= k < i ==> spec_is_digit(s@[k]),
            digit_run_end(s@, from as int) == digit_run_end(s@, i as int),
            value == digits_value(s@, from as int, i as int),
            value < pow10((i - from) as nat),
        decreases s@.len() - i,
    {
        if i - from >= 19 {
            proof {
                assert(spec_is_digit(s@[i as int]));
                assert(digit_run_end(s@, i as int) == digit_run_end(s@, i as int + 1));
                lemma_digit_run_end_ge(s@, i as int + 1);
            }
            return None;
        }
        proof {
            lemma_pow10_monotone((i - from) as nat, 18);
            lemma_pow10_18();
            assert(value < 1_000_000_000_000_000_000);
        }
        let d: u8 = s[i] - 48;
        value = value * 10 + (d as u64);
        i = i + 1;
        proof {
            assert(pow10((i - from) as nat) == pow10((i - from - 1) as nat) * 10);
        }
    }
    proof {
        assert(digit_run_end(s@, i as int) == i);
    }
    if i == from {
        None
    } else {
        Some(value)
    }
}

} // verus!
