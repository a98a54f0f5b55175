//! Numbers written out in decimal.

use vstd::prelude::*;

verus! {

/// The decimal digits of `n`.
pub open spec fn decimal(n: nat) -> Seq<char>
    decreases n,
{
    if n < 10 {
        seq![(('0' as u32) + (n as u32)) as char]
    } else {
        decimal(n / 10) + seq![(('0' as u32) + ((n % 10) as u32)) as char]
    }
}

/// The decimal digits of `n`.
pub fn decimal_text(n: u64) -> (r: String)
    ensures
        r@ == decimal(n as nat),
{
    let mut digits: Vec<char> = Vec::new();
    let mut rest: u64 = n;
    while rest >= 10
        invariant
            decimal(n as nat) == decimal(rest as nat) + digits@.reverse(),
        decreases rest,
    {
        let d: u64 = rest % 10;
        let c = char_of_digit(d);
        proof {
            assert(decimal(rest as nat) == decimal((rest / 10) as nat) + seq![c]);
            assert((digits@.push(c)).reverse() =~= seq![c] + digits@.reverse());
        }
        digits.push(c);
        rest = rest / 10;
    }
    let first = char_of_digit(rest);
    let mut text = String::new();
    push_char(&mut text, first);
    let mut k: usize = digits.len();
    proof {
        assert(decimal(rest as nat) == seq![first]);
    }
    while k > 0
        invariant
            k <= digits@.len(),
            decimal(n as nat) == text@ + digits@.take(k as int).reverse(),
        decreases k,
    {
        k = k - 1;
        let c = digits[k];
        proof {
            assert(digits@.take(k + 1).reverse() =~= seq![c] + digits@.take(k as int).reverse());
        }
        push_char(&mut text, c);
    }
    proof {
        assert(digits@.take(0).reverse() =~= Seq::<char>::empty());
    }
    text
}

fn char_of_digit(d: u64) -> (c: char)
    requires
        d < 10,
    ensures
        c == (('0' as u32) + (d as u32)) as char,
{
    if d == 0 { '0' } else if d == 1 { '1' } else if d == 2 { '2' } else if d == 3 { '3' }
    else if d == 4 { '4' } else if d == 5 { '5' } else if d == 6 { '6' } else if d == 7 { '7' }
    else if d == 8 { '8' } else { '9' }
}

/// Appends one character with `String::push`.
#[verifier::external_body]
fn push_char(s: &mut String, c: char)
    ensures
        final(s)@ == old(s)@.push(c),
{
    s.push(c);
}

/// The decimal text of a signed number: a minus sign before the digits of
/// its magnitude where it is negative.
pub open spec fn signed_decimal(n: int) -> Seq<char> {
    if n < 0 {
        seq!['-'] + decimal((-n) as nat)
    } else {
        decimal(n as nat)
    }
}

/// The decimal text of `n`, as `i32`'s `Display` writes it.
pub fn signed_decimal_text(n: i32) -> (r: String)
    ensures
        r@ == signed_decimal(n as int),
{
    if n < 0 {
        let magnitude: u64 = (0i64 - (n as i64)) as u64;
        let digits = decimal_text(magnitude);
        let mut text = String::from_str("-");
        text.append(digits.as_str());
        proof {
            reveal_strlit("-");
            assert("-"@ =~= seq!['-']);
        }
        text
    } else {
        decimal_text(n as u64)
    }
}

} // verus!
