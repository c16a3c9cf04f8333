//! Deriving the click delay from the delay text field.
//!
//! The raw field text is filtered down to its decimal digits; the remaining
//! digit string is read as an unsigned number of milliseconds.  An empty
//! result, like a value too large for the delay's width, falls back to a
//! delay of zero: bad input never blocks the interface.

use vstd::prelude::*;

verus! {

/// One character of the delay field survives filtering exactly when it is a
/// decimal digit.
pub open spec fn is_digit_char(c: char) -> bool {
    48 <= c as int && c as int <= 57
}

/// The numeric value of a single digit character.
pub open spec fn digit_val(c: char) -> int {
    c as int - 48
}

/// The subsequence of decimal digits of `s`, in order.
pub open spec fn digits_of(s: Seq<char>) -> Seq<char>
    decreases s.len(),
{
    if s.len() == 0 {
        Seq::empty()
    } else if is_digit_char(s.last()) {
        digits_of(s.drop_last()).push(s.last())
    } else {
        digits_of(s.drop_last())
    }
}

/// The number denoted by a digit string, most significant digit first.
pub open spec fn digits_val(s: Seq<char>) -> int
    decreases s.len(),
{
    if s.len() == 0 {
        0
    } else {
        digits_val(s.drop_last()) * 10 + digit_val(s.last())
    }
}

/// The delay denoted by a digit string: its numeric value, or zero when the
/// value does not fit the delay's width.
pub open spec fn delay_of_digits(s: Seq<char>) -> u64 {
    if digits_val(s) <= u64::MAX as int {
        digits_val(s) as u64
    } else {
        0
    }
}

/// The delay derived from arbitrary field text: filter, then read.
pub open spec fn delay_from_text(text: Seq<char>) -> u64 {
    delay_of_digits(digits_of(text))
}

/// Every character that survives the digit filter is a digit.
pub proof fn lemma_digits_of_only_digits(s: Seq<char>)
    ensures
        forall|i: int| 0 <= i < digits_of(s).len() ==> is_digit_char(#[trigger] digits_of(s)[i]),
    decreases s.len(),
{
    if s.len() > 0 {
        lemma_digits_of_only_digits(s.drop_last());
        if is_digit_char(s.last()) {
            assert forall|i: int| 0 <= i < digits_of(s).len() implies is_digit_char(
                digits_of(s)[i],
            ) by {
                if i < digits_of(s).len() - 1 {
                    assert(digits_of(s)[i] == digits_of(s.drop_last())[i]);
                } else {
                    assert(digits_of(s)[i] == s.last());
                }
            }
        }
    }
}

/// A digit string denotes a non-negative number.
pub proof fn lemma_digits_val_nonneg(s: Seq<char>)
    requires
        forall|i: int| 0 <= i < s.len() ==> is_digit_char(#[trigger] s[i]),
    ensures
        digits_val(s) >= 0,
    decreases s.len(),
{
    if s.len() > 0 {
        assert(is_digit_char(s.last()));
        lemma_digits_val_nonneg(s.drop_last());
    }
}

/// Reading more digits never shrinks the denoted number.
pub proof fn lemma_digits_val_take_le(s: Seq<char>, i: int, j: int)
    requires
        forall|k: int| 0 <= k < s.len() ==> is_digit_char(#[trigger] s[k]),
        0 <= i <= j <= s.len(),
    ensures
        digits_val(s.take(i)) <= digits_val(s.take(j)),
    decreases j - i,
{
    if i < j {
        lemma_digits_val_take_le(s, i, j - 1);
        assert(s.take(j).drop_last() =~= s.take(j - 1));
        assert(s.take(j).last() == s[j - 1]);
        assert(forall|k: int| 0 <= k < s.take(j - 1).len() ==> is_digit_char(
            #[trigger] s.take(j - 1)[k],
        ));
        lemma_digits_val_nonneg(s.take(j - 1));
    }
}

/// Keeps exactly the decimal digit characters of `text`, in order.
pub fn filter_digit_chars(text: &str) -> (r: String)
    ensures
        r@ == digits_of(text@),
{
    let n: usize = text.unicode_len();
    let mut r = String::new();
    let mut i: usize = 0;
    while i < n
        invariant
            n == text@.len(),
            i <= n,
            r@ == digits_of(text@.take(i as int)),
        decreases n - i,
    {
        let c = text.get_char(i);
        let cv: u32 = c as u32;
        if 48 <= cv && cv <= 57 {
            let d = text.substring_char(i, i + 1);
            proof {
                assert(d@ =~= seq![text@[i as int]]);
            }
            r.append(d);
        }
        proof {
            assert(text@.take(i + 1).drop_last() =~= text@.take(i as int));
            assert(text@.take(i + 1).last() == text@[i as int]);
            if is_digit_char(text@[i as int]) {
                assert(r@ =~= digits_of(text@.take(i as int)).push(text@[i as int]));
            }
        }
        i = i + 1;
    }
    proof {
        assert(text@.take(n as int) =~= text@);
    }
    r
}

/// Reads a digit string as a number of milliseconds; a value too large for
/// `u64` yields zero.
pub fn parse_digits(digits: &str) -> (r: u64)
    requires
        forall|i: int| 0 <= i < digits@.len() ==> is_digit_char(#[trigger] digits@[i]),
    ensures
        r == delay_of_digits(digits@),
{
    let n: usize = digits.unicode_len();
    let mut acc: u64 = 0;
    let mut i: usize = 0;
    while i < n
        invariant
            n == digits@.len(),
            forall|k: int| 0 <= k < digits@.len() ==> is_digit_char(#[trigger] digits@[k]),
            i <= n,
            acc as int == digits_val(digits@.take(i as int)),
        decreases n - i,
    {
        let c = digits.get_char(i);
        let d: u64 = (c as u32 - 48) as u64;
        proof {
            assert(is_digit_char(digits@[i as int]));
            assert(digits@.take(i + 1).drop_last() =~= digits@.take(i as int));
            assert(digits@.take(i + 1).last() == digits@[i as int]);
        }
        if acc > (u64::MAX - d) / 10 {
            proof {
                assert(acc as int * 10 + d as int > u64::MAX as int) by (nonlinear_arith)
                    requires
                        acc as int > (u64::MAX as int - d as int) / 10,
                        0 <= d as int <= 9,
                ;
                lemma_digits_val_take_le(digits@, i + 1, n as int);
                assert(digits@.take(n as int) =~= digits@);
            }
            return 0;
        }
        proof {
            assert(acc as int * 10 + d as int <= u64::MAX as int) by (nonlinear_arith)
                requires
                    acc as int <= (u64::MAX as int - d as int) / 10,
                    0 <= d as int <= 9,
                    acc as int >= 0,
            ;
        }
        acc = acc * 10 + d;
        i = i + 1;
    }
    proof {
        assert(digits@.take(n as int) =~= digits@);
    }
    acc
}

/// Derives the delay from raw field text: the returned string is the text
/// reduced to its digits, the returned number is the delay it denotes.
pub fn derive_delay(text: &str) -> (r: (String, u64))
    ensures
        r.0@ == digits_of(text@),
        r.1 == delay_from_text(text@),
{
    let filtered = filter_digit_chars(text);
    proof {
        lemma_digits_of_only_digits(text@);
    }
    let value = parse_digits(filtered.as_str());
    (filtered, value)
}

} // verus!
