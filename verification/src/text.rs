use vstd::prelude::*;

verus! {

/// The character of a decimal digit.
pub open spec fn digit_char(d: nat) -> char
    recommends
        d < 10,
{
    (d + 48) as char
}

/// The decimal notation of `n`, without sign, padding or separators.
pub open spec fn decimal(n: nat) -> Seq<char>
    decreases n,
{
    if n < 10 {
        seq![digit_char(n)]
    } else {
        decimal(n / 10).push(digit_char(n % 10))
    }
}

/// The decimal notation of `n`, padded with one leading zero below ten.
pub open spec fn two_digits(n: nat) -> Seq<char> {
    if n < 10 {
        seq!['0'] + decimal(n)
    } else {
        decimal(n)
    }
}

/// Calls `u64::to_string`, whose `Display` writes the number in decimal with no sign,
/// padding or separators.
#[verifier::external_body]
pub fn decimal_text(n: u64) -> (s: String)
    ensures
        s@ == decimal(n as nat),
{
    n.to_string()
}

/// The decimal notation of `n` with at least two digits, as `{:02}` writes it.
pub fn two_digit_text(n: u64) -> (s: String)
    ensures
        s@ == two_digits(n as nat),
{
    if n < 10 {
        let mut s = String::from_str("0");
        let digits = decimal_text(n);
        s.append(digits.as_str());
        proof {
            reveal_strlit("0");
        }
        s
    } else {
        decimal_text(n)
    }
}

} // verus!
