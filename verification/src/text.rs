//! Small text helpers shared by the crate: single-character edits on a
//! `String`, decimal formatting and decimal parsing.

use vstd::prelude::*;

verus! {

/// Relies on String::push: appends exactly one character.
#[verifier::external_body]
pub fn push_char(s: &mut String, c: char)
    ensures
        final(s)@ == old(s)@.push(c),
{
    s.push(c)
}

/// Relies on String::pop: removes and returns the last character, or
/// returns nothing when the string is empty.
#[verifier::external_body]
pub fn pop_char(s: &mut String) -> (r: Option<char>)
    ensures
        old(s)@.len() == 0 ==> r is None && final(s)@ == old(s)@,
        old(s)@.len() > 0 ==> r == Some(old(s)@.last()) && final(s)@ == old(s)@.drop_last(),
{
    s.pop()
}

/// The characters of a string, one by one.
pub fn chars_of(s: &str) -> (v: Vec<char>)
    ensures
        v@ == s@,
{
    let n = s.unicode_len();
    let mut v: Vec<char> = Vec::new();
    let mut i: usize = 0;
    while i < n
        invariant
            n == s@.len(),
            i <= n,
            v@ == s@.subrange(0, i as int),
        decreases n - i,
    {
        v.push(s.get_char(i));
        i = i + 1;
    }
    proof {
        assert(v@ =~= s@);
    }
    v
}

/// Whether `s` begins with `prefix`.
pub fn has_prefix(s: &str, prefix: &str) -> (r: bool)
    ensures
        r == (s@.len() >= prefix@.len() && s@.subrange(0, prefix@.len() as int) =~= prefix@),
{
    let n = s.unicode_len();
    let m = prefix.unicode_len();
    if n < m {
        return false;
    }
    let mut i: usize = 0;
    while i < m
        invariant
            n == s@.len(),
            m == prefix@.len(),
            m <= n,
            i <= m,
            forall|j: int| 0 <= j < i ==> s@[j] == prefix@[j],
        decreases m - i,
    {
        if s.get_char(i) != prefix.get_char(i) {
            return false;
        }
        i = i + 1;
    }
    proof {
        assert(s@.subrange(0, prefix@.len() as int) =~= prefix@);
    }
    true
}

/// The character for one decimal digit.
pub open spec fn spec_digit_char(d: int) -> char {
    if d == 0 {
        '0'
    } else if d == 1 {
        '1'
    } else if d == 2 {
        '2'
    } else if d == 3 {
        '3'
    } else if d == 4 {
        '4'
    } else if d == 5 {
        '5'
    } else if d == 6 {
        '6'
    } else if d == 7 {
        '7'
    } else if d == 8 {
        '8'
    } else {
        '9'
    }
}

/// The decimal notation of a number, most significant digit first.
pub open spec fn spec_decimal(n: nat) -> Seq<char>
    decreases n,
{
    if n < 10 {
        seq![spec_digit_char(n as int)]
    } else {
        spec_decimal(n / 10).push(spec_digit_char((n % 10) as int))
    }
}

fn digit_char(d: u64) -> (c: char)
    requires
        d < 10,
    ensures
        c == spec_digit_char(d as int),
{
    match d {
        0 => '0',
        1 => '1',
        2 => '2',
        3 => '3',
        4 => '4',
        5 => '5',
        6 => '6',
        7 => '7',
        8 => '8',
        _ => '9',
    }
}

/// Appends the decimal notation of `n`.
pub fn append_u64(s: &mut String, n: u64)
    ensures
        final(s)@ == old(s)@ + spec_decimal(n as nat),
    decreases n,
{
    if n < 10 {
        push_char(s, digit_char(n));
        proof {
            assert(final(s)@ =~= old(s)@ + spec_decimal(n as nat));
        }
    } else {
        append_u64(s, n / 10);
        push_char(s, digit_char(n % 10));
        proof {
            assert(final(s)@ =~= old(s)@ + spec_decimal(n as nat));
        }
    }
}

/// The decimal notation of `n` on its own.
pub fn u64_to_string(n: u64) -> (s: String)
    ensures
        s@ == spec_decimal(n as nat),
{
    let mut s = String::new();
    append_u64(&mut s, n);
    proof {
        assert(s@ =~= spec_decimal(n as nat));
    }
    s
}

/// Whether every character of `s` is a decimal digit.
pub open spec fn spec_all_digits(s: Seq<char>) -> bool {
    forall|i: int| 0 <= i < s.len() ==> '0' <= #[trigger] s[i] <= '9'
}

/// The number a digit string denotes.
pub open spec fn spec_digits_value(s: Seq<char>) -> int
    decreases s.len(),
{
    if s.len() == 0 {
        0
    } else {
        spec_digits_value(s.drop_last()) * 10 + (s.last() as int - '0' as int)
    }
}

/// Reads a number in decimal notation. Returns nothing when `s` is empty,
/// holds a character that is not a digit, or denotes a number too large
/// for the machine word.
pub fn parse_u64(s: &str) -> (r: Option<u64>)
    ensures
        match r {
            Some(v) => s@.len() > 0 && spec_all_digits(s@) && v == spec_digits_value(s@),
            None => s@.len() == 0 || !spec_all_digits(s@) || spec_digits_value(s@) > u64::MAX,
        },
{
    let n = s.unicode_len();
    if n == 0 {
        return None;
    }
    let mut value: u64 = 0;
    let mut i: usize = 0;
    while i < n
        invariant
            n == s@.len(),
            i <= n,
            spec_all_digits(s@.subrange(0, i as int)),
            value == spec_digits_value(s@.subrange(0, i as int)),
        decreases n - i,
    {
        let c = s.get_char(i);
        if !(c >= '0' && c <= '9') {
            proof {
                lemma_not_all_digits(s@, i as int);
            }
            return None;
        }
        let d: u64 = (c as u32 as u64) - ('0' as u32 as u64);
        let shifted = match value.checked_mul(10) {
            Some(x) => x,
            None => {
                proof {
                    lemma_prefix_overflows(s@, i as int, value as int, d as int);
                }
                return None;
            },
        };
        let next = match shifted.checked_add(d) {
            Some(x) => x,
            None => {
                proof {
                    lemma_prefix_overflows(s@, i as int, value as int, d as int);
                }
                return None;
            },
        };
        proof {
            assert(s@.subrange(0, i + 1).drop_last() =~= s@.subrange(0, i as int));
            assert(s@.subrange(0, i + 1).last() == s@[i as int]);
        }
        value = next;
        i = i + 1;
    }
    proof {
        assert(s@.subrange(0, n as int) =~= s@);
    }
    Some(value)
}

/// A string with a character that is not a digit does not read as a number.
proof fn lemma_not_all_digits(s: Seq<char>, i: int)
    requires
        0 <= i < s.len(),
        !('0' <= s[i] <= '9'),
    ensures
        !spec_all_digits(s),
{
}

/// A digit string whose next step of the reading loop would overflow the
/// machine word denotes, as a whole, a number too large for it.
proof fn lemma_prefix_overflows(s: Seq<char>, i: int, value: int, d: int)
    requires
        0 <= i < s.len(),
        spec_all_digits(s.subrange(0, i)),
        value == spec_digits_value(s.subrange(0, i)),
        '0' <= s[i] <= '9',
        d == s[i] as int - '0' as int,
        value * 10 + d > u64::MAX,
    ensures
        !spec_all_digits(s) || spec_digits_value(s) > u64::MAX,
{
    let pre = s.subrange(0, i + 1);
    assert(pre.drop_last() =~= s.subrange(0, i));
    assert(spec_all_digits(pre)) by {
        assert forall|j: int| 0 <= j < pre.len() implies '0' <= #[trigger] pre[j] <= '9' by {
            if j < i {
                assert(pre[j] == s.subrange(0, i)[j]);
            }
        }
    }
    assert(spec_digits_value(pre) == value * 10 + d);
    lemma_digits_value_grows(s, i);
}

/// Extending a digit string can only make its value larger.
proof fn lemma_digits_value_grows(s: Seq<char>, i: int)
    requires
        0 <= i < s.len(),
        spec_all_digits(s.subrange(0, i + 1)),
    ensures
        spec_all_digits(s) ==> spec_digits_value(s) >= spec_digits_value(s.subrange(0, i + 1)),
    decreases s.len() - i,
{
    if spec_all_digits(s) {
        if i + 1 == s.len() {
            assert(s.subrange(0, i + 1) =~= s);
        } else {
            lemma_digits_value_grows(s, i + 1);
            let longer = s.subrange(0, i + 2);
            let shorter = s.subrange(0, i + 1);
            assert(longer.drop_last() =~= shorter);
            assert('0' <= longer.last() <= '9');
            assert(spec_digits_value(longer) == spec_digits_value(shorter) * 10 + (
            longer.last() as int - '0' as int));
            assert(spec_digits_value(shorter) >= 0) by {
                lemma_digits_value_nonneg(shorter);
            }
        }
    }
}

/// A digit string denotes a number that is not negative.
proof fn lemma_digits_value_nonneg(s: Seq<char>)
    requires
        spec_all_digits(s),
    ensures
        spec_digits_value(s) >= 0,
    decreases s.len(),
{
    if s.len() > 0 {
        assert(spec_all_digits(s.drop_last())) by {
            assert(forall|i: int|
                0 <= i < s.drop_last().len() ==> s.drop_last()[i] == #[trigger] s[i]);
        }
        lemma_digits_value_nonneg(s.drop_last());
    }
}

} // verus!
