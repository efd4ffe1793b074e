use vstd::prelude::*;
use vstd::string::StrSliceExecFns;

verus! {

/// Whether a character is an ASCII decimal digit.
pub open spec fn is_digit(c: char) -> bool {
    '0' <= c && c <= '9'
}

/// Whether a sequence is made of ASCII decimal digits only.
pub open spec fn all_digits(s: Seq<char>) -> bool {
    forall|i: int| 0 <= i < s.len() ==> is_digit(#[trigger] s[i])
}

/// The value of one decimal digit.
pub open spec fn digit_value(c: char) -> nat {
    (c as int - '0' as int) as nat
}

/// The value of a sequence of decimal digits, most significant first.
pub open spec fn digits_value(s: Seq<char>) -> nat
    decreases s.len(),
{
    if s.len() == 0 {
        0
    } else {
        digits_value(s.drop_last()) * 10 + digit_value(s.last())
    }
}

/// Whether the text starts with a minus sign.
pub open spec fn has_minus(s: Seq<char>) -> bool {
    s.len() > 0 && s[0] == '-'
}

/// The text after an optional leading `+` or `-`.
pub open spec fn magnitude_text(s: Seq<char>) -> Seq<char> {
    if s.len() > 0 && (s[0] == '+' || s[0] == '-') {
        s.subrange(1, s.len() as int)
    } else {
        s
    }
}

/// The signed value that the text denotes when it is a signed decimal.
pub open spec fn signed_value(s: Seq<char>) -> int {
    if has_minus(s) {
        -digits_value(magnitude_text(s))
    } else {
        digits_value(magnitude_text(s)) as int
    }
}

/// The id that a text field denotes: an optional sign, then one or more
/// decimal digits, with nothing around them, whose value fits in an `i32`.
pub open spec fn id_of(s: Seq<char>) -> Option<i32> {
    let m = magnitude_text(s);
    if m.len() > 0 && all_digits(m) && i32::MIN <= signed_value(s) && signed_value(s)
        <= i32::MAX {
        Some(signed_value(s) as i32)
    } else {
        None
    }
}

proof fn lemma_digits_value_prefix_step(s: Seq<char>, k: int)
    requires
        0 <= k < s.len(),
    ensures
        digits_value(s.subrange(0, k + 1)) == digits_value(s.subrange(0, k)) * 10 + digit_value(
            s[k],
        ),
{
    let p = s.subrange(0, k + 1);
    assert(p.drop_last() =~= s.subrange(0, k));
}

proof fn lemma_digits_value_monotone(s: Seq<char>, i: int, j: int)
    requires
        0 <= i <= j <= s.len(),
    ensures
        digits_value(s.subrange(0, i)) <= digits_value(s.subrange(0, j)),
    decreases j - i,
{
    if i < j {
        lemma_digits_value_monotone(s, i, j - 1);
        lemma_digits_value_prefix_step(s, j - 1);
    }
}

/// Reads an id field: an optional `+` or `-` followed by decimal digits only,
/// in the range of `i32`. Any other text gives `None`.
pub fn parse_id(field: &str) -> (r: Option<i32>)
    ensures
        r == id_of(field@),
{
    let n = field.unicode_len();
    let s = Ghost(field@);
    let mut start: usize = 0;
    let mut negative = false;
    if n > 0 {
        let c0 = field.get_char(0);
        if c0 == '-' {
            negative = true;
            start = 1;
        } else if c0 == '+' {
            start = 1;
        }
    }
    let m = Ghost(magnitude_text(s@));
    assert(negative == has_minus(s@));
    assert(m@ =~= s@.subrange(start as int, n as int));
    if start >= n {
        return None;
    }
    let limit: u64 = if negative {
        2147483648
    } else {
        2147483647
    };
    let mut acc: u64 = 0;
    let mut i: usize = start;
    while i < n
        invariant
            n == s@.len(),
            s@ == field@,
            start <= i <= n,
            m@ =~= s@.subrange(start as int, n as int),
            m@ == magnitude_text(s@),
            negative == has_minus(s@),
            limit == (if negative { 2147483648u64 } else { 2147483647u64 }),
            acc <= limit,
            limit <= 2147483648,
            acc == digits_value(m@.subrange(0, i - start)),
            forall|k: int| 0 <= k < i - start ==> is_digit(#[trigger] m@[k]),
        decreases n - i,
    {
        let c = field.get_char(i);
        if c < '0' || c > '9' {
            assert(!is_digit(m@[i - start]));
            return None;
        }
        proof {
            lemma_digits_value_prefix_step(m@, i - start);
        }
        let d: u64 = (c as u32 - '0' as u32) as u64;
        let next: u64 = acc * 10 + d;
        if next > limit {
            proof {
                lemma_digits_value_monotone(m@, i - start + 1, m@.len() as int);
                assert(m@.subrange(0, m@.len() as int) =~= m@);
            }
            return None;
        }
        acc = next;
        i = i + 1;
    }
    assert(m@.subrange(0, m@.len() as int) =~= m@);
    assert(all_digits(m@));
    if negative {
        Some((0 - acc as i64) as i32)
    } else {
        Some(acc as i32)
    }
}

} // verus!
