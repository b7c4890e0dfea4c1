//! Textual transform records.
//!
//! A transform is reported to the caller as a record with exactly the fields
//! `width`, `height`, `top`, `left`, in that field order, with no inserted
//! whitespace. The formatting here is verified down to the decimal digits.

use vstd::prelude::*;

use crate::layout::Transform;

verus! {

/// The decimal digit character for `d`.
pub open spec fn digit_char(d: int) -> char {
    if d == 0 {
        '0'
    } else if d == 1 {
        '1'
    } else if d == 2 {
        '2'
    } else if d == 3 {
        '3'
    } else if d == 4 {
        '4'
    } else if d == 5 {
        '5'
    } else if d == 6 {
        '6'
    } else if d == 7 {
        '7'
    } else if d == 8 {
        '8'
    } else {
        '9'
    }
}

/// The decimal digits of `n`, most significant first, with no leading zero
/// except for `n == 0` itself.
pub open spec fn decimal_digits(n: nat) -> Seq<char>
    decreases n,
{
    if n < 10 {
        seq![digit_char(n as int)]
    } else {
        decimal_digits(n / 10).push(digit_char((n % 10) as int))
    }
}

/// The textual record of a transform: the four fields by name, in order,
/// each value in decimal, with no inserted whitespace.
pub open spec fn transform_record_text(t: Transform) -> Seq<char> {
    "{\"width\":"@ + decimal_digits(t.width as nat) + ",\"height\":"@ + decimal_digits(
        t.height as nat,
    ) + ",\"top\":"@ + decimal_digits(t.top as nat) + ",\"left\":"@ + decimal_digits(t.left as nat)
        + "}"@
}

/// Append the single decimal digit `d` to `s`.
fn push_digit(s: &mut String, d: u64)
    requires
        d < 10,
    ensures
        final(s)@ == old(s)@.push(digit_char(d as int)),
{
    proof {
        reveal_strlit("0");
        reveal_strlit("1");
        reveal_strlit("2");
        reveal_strlit("3");
        reveal_strlit("4");
        reveal_strlit("5");
        reveal_strlit("6");
        reveal_strlit("7");
        reveal_strlit("8");
        reveal_strlit("9");
    }
    if d == 0 {
        s.append("0");
    } else if d == 1 {
        s.append("1");
    } else if d == 2 {
        s.append("2");
    } else if d == 3 {
        s.append("3");
    } else if d == 4 {
        s.append("4");
    } else if d == 5 {
        s.append("5");
    } else if d == 6 {
        s.append("6");
    } else if d == 7 {
        s.append("7");
    } else if d == 8 {
        s.append("8");
    } else {
        s.append("9");
    }
    assert(final(s)@ =~= old(s)@.push(digit_char(d as int)));
}

/// Append the decimal digits of `n` to `s`, most significant first.
fn push_decimal(s: &mut String, n: u64)
    ensures
        final(s)@ == old(s)@ + decimal_digits(n as nat),
    decreases n,
{
    if n < 10 {
        push_digit(s, n);
        assert(final(s)@ =~= old(s)@ + decimal_digits(n as nat));
    } else {
        push_decimal(s, n / 10);
        push_digit(s, n % 10);
        assert(final(s)@ =~= old(s)@ + decimal_digits(n as nat));
    }
}

/// Render the textual record of `t`: fields `width`, `height`, `top`, `left`
/// in that order, decimal values, no inserted whitespace.
pub fn transform_record(t: &Transform) -> (r: String)
    ensures
        r@ == transform_record_text(*t),
{
    let mut s = String::new();
    s.append("{\"width\":");
    push_decimal(&mut s, t.width);
    s.append(",\"height\":");
    push_decimal(&mut s, t.height);
    s.append(",\"top\":");
    push_decimal(&mut s, t.top);
    s.append(",\"left\":");
    push_decimal(&mut s, t.left);
    s.append("}");
    assert(s@ =~= transform_record_text(*t));
    s
}

} // verus!
