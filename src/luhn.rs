use vstd::prelude::*;

verus! {

/// An ASCII decimal digit.
pub open spec fn is_digit(c: char) -> bool {
    '0' <= c && c <= '9'
}

/// The value of an ASCII digit.
pub open spec fn digit_value(c: char) -> int {
    c as int - '0' as int
}

/// Every character of `s` in `[lo, hi)` is a digit.
pub open spec fn digits_in(s: Seq<char>, lo: int, hi: int) -> bool {
    forall|i: int| lo <= i < hi ==> is_digit(#[trigger] s[i])
}

/// What the digit `c` at position `i` adds to the Luhn sum: digits at even
/// positions are doubled, and a doubled value above 9 loses 9.
pub open spec fn luhn_term(i: int, c: char) -> int {
    let n = digit_value(c);
    if i % 2 == 0 {
        if 2 * n > 9 {
            2 * n - 9
        } else {
            2 * n
        }
    } else {
        n
    }
}

/// The Luhn sum of the first `k` characters of `s`.
pub open spec fn luhn_sum(s: Seq<char>, k: int) -> int
    decreases k,
{
    if k <= 0 {
        0
    } else {
        luhn_sum(s, k - 1) + luhn_term(k - 1, s[k - 1])
    }
}

/// `s` is all digits and its Luhn sum is a multiple of ten.
pub open spec fn luhn_valid(s: Seq<char>) -> bool {
    digits_in(s, 0, s.len() as int) && luhn_sum(s, s.len() as int) % 10 == 0
}

/// The Luhn sum of a prefix depends on that prefix alone.
pub proof fn lemma_luhn_sum_prefix(s: Seq<char>, t: Seq<char>, k: int)
    requires
        0 <= k <= s.len(),
        k <= t.len(),
        forall|i: int| 0 <= i < k ==> s[i] == t[i],
    ensures
        luhn_sum(s, k) == luhn_sum(t, k),
    decreases k,
{
    if k > 0 {
        lemma_luhn_sum_prefix(s, t, k - 1);
    }
}

/// Checks the Luhn checksum of the characters `v[start..]`.
pub fn luhn_check_chars(v: &Vec<char>, start: usize) -> (r: bool)
    requires
        start <= v.len(),
    ensures
        r == luhn_valid(v@.subrange(start as int, v@.len() as int)),
{
    let ghost s = v@.subrange(start as int, v@.len() as int);
    let mut sum: u32 = 0;
    let mut i: usize = start;
    while i < v.len()
        invariant
            start <= i <= v.len(),
            s == v@.subrange(start as int, v@.len() as int),
            digits_in(s, 0, i - start),
            sum < 10,
            sum as int == luhn_sum(s, i - start) % 10,
        decreases v.len() - i,
    {
        let c = v[i];
        if !('0' <= c && c <= '9') {
            assert(!is_digit(s[i - start]));
            return false;
        }
        let k: usize = i - start;
        let mut n: u32 = (c as u32) - ('0' as u32);
        if k % 2 == 0 {
            n = n * 2;
            if n > 9 {
                n = n - 9;
            }
        }
        assert(n as int == luhn_term(k as int, s[k as int]));
        proof {
            vstd::arithmetic::div_mod::lemma_add_mod_noop(luhn_sum(s, k as int), n as int, 10);
            vstd::arithmetic::div_mod::lemma_mod_twice(n as int, 10);
            vstd::arithmetic::div_mod::lemma_small_mod(n as nat, 10);
            vstd::arithmetic::div_mod::lemma_mod_twice(luhn_sum(s, k as int), 10);
        }
        sum = (sum + n) % 10;
        i = i + 1;
    }
    sum == 0
}

/// Checks the Luhn checksum of `s`: every character must be a digit, and the
/// sum of the digits, those at even positions doubled (less 9 when above 9),
/// must be a multiple of ten.
pub fn luhn_check(s: &str) -> (r: bool)
    ensures
        r == luhn_valid(s@),
{
    let v = crate::parse::chars_of(s);
    assert(v@.subrange(0, v@.len() as int) == s@);
    luhn_check_chars(&v, 0)
}

} // verus!
