use vstd::prelude::*;

verus! {

/// The character of a decimal digit.
pub open spec fn digit_char(d: nat) -> char {
    if d == 0 { '0' }
    else if d == 1 { '1' }
    else if d == 2 { '2' }
    else if d == 3 { '3' }
    else if d == 4 { '4' }
    else if d == 5 { '5' }
    else if d == 6 { '6' }
    else if d == 7 { '7' }
    else if d == 8 { '8' }
    else { '9' }
}

/// The decimal digits of `n`, most significant first, without leading zeros.
pub open spec fn decimal_digits(n: nat) -> Seq<char>
    decreases n,
{
    if n < 10 {
        seq![digit_char(n)]
    } else {
        decimal_digits(n / 10).push(digit_char(n % 10))
    }
}

/// The decimal text of an integer: a minus sign before negative values.
pub open spec fn decimal_text(n: int) -> Seq<char> {
    if n < 0 {
        seq!['-'] + decimal_digits((-n) as nat)
    } else {
        decimal_digits(n as nat)
    }
}

/// Appends one decimal digit.
fn push_digit(text: &mut String, d: u128)
    requires
        d < 10,
    ensures
        final(text)@ == old(text)@.push(digit_char(d as nat)),
{
    proof {
        reveal_strlit("0");
        reveal_strlit("1");
        reveal_strlit("2");
        reveal_strlit("3");
        reveal_strlit("4");
        reveal_strlit("5");
        reveal_strlit("6");
        reveal_strlit("7");
        reveal_strlit("8");
        reveal_strlit("9");
    }
    let ghost before = text@;
    if d == 0 {
        text.append("0");
    } else if d == 1 {
        text.append("1");
    } else if d == 2 {
        text.append("2");
    } else if d == 3 {
        text.append("3");
    } else if d == 4 {
        text.append("4");
    } else if d == 5 {
        text.append("5");
    } else if d == 6 {
        text.append("6");
    } else if d == 7 {
        text.append("7");
    } else if d == 8 {
        text.append("8");
    } else {
        text.append("9");
    }
    assert(text@ =~= before.push(digit_char(d as nat)));
}

/// Appends the decimal digits of `n`, most significant first.
fn append_digits(text: &mut String, n: u128)
    ensures
        final(text)@ == old(text)@ + decimal_digits(n as nat),
    decreases n,
{
    let ghost before = text@;
    if n >= 10 {
        append_digits(text, n / 10);
    }
    let ghost middle = text@;
    push_digit(text, n % 10);
    proof {
        if n >= 10 {
            assert(middle == before + decimal_digits((n / 10) as nat));
            assert(decimal_digits(n as nat) == decimal_digits((n / 10) as nat).push(digit_char((n % 10) as nat)));
            assert(text@ =~= before + decimal_digits(n as nat));
        } else {
            assert(decimal_digits(n as nat) == seq![digit_char(n as nat)]);
            assert(text@ =~= before + decimal_digits(n as nat));
        }
    }
}

/// Writes `n` in decimal: a `-` before negative values, then the digits without leading zeros.
pub(crate) fn decimal_string(n: i128) -> (r: String)
    ensures
        r@ == decimal_text(n as int),
{
    let mut text = String::new();
    if n < 0 {
        proof {
            reveal_strlit("-");
        }
        text.append("-");
        let magnitude: u128 = (-(n + 1)) as u128 + 1;
        append_digits(&mut text, magnitude);
        assert(text@ =~= seq!['-'] + decimal_digits((-n) as nat));
    } else {
        append_digits(&mut text, n as u128);
        assert(text@ =~= decimal_digits(n as nat));
    }
    text
}

} // verus!
