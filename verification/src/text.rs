//! Small string utilities the rest of the crate builds its labels with.

use vstd::prelude::*;
use vstd::string::*;

verus! {

/// `String::push` of the standard library: the character is appended at the end
/// and nothing else changes.
#[verifier::external_body]
pub(crate) fn push_char(s: &mut String, c: char)
    ensures
        final(s)@ == old(s)@.push(c),
{
    s.push(c);
}

/// What `str::to_lowercase` of the standard library makes of a text: its
/// lowercase equivalent under the Unicode rules that the standard library
/// implements. The mapping itself is not modelled.
pub uninterp spec fn lowercase_of(text: Seq<char>) -> Seq<char>;

/// `str::to_lowercase` of the standard library. The result is a function of
/// the characters alone; the contract only gives it the name `lowercase_of`.
#[verifier::external_body]
pub(crate) fn to_lowercase(s: &str) -> (lowered: String)
    ensures
        lowered@ == lowercase_of(s@),
{
    s.to_lowercase()
}

/// Whether two string slices hold the same characters.
pub fn str_eq(a: &str, b: &str) -> (same: bool)
    ensures
        same == (a@ == b@),
{
    let left = a.to_owned();
    let right = b.to_owned();
    left == right
}

/// The decimal digit character of `d`.
pub open spec fn digit_char(d: int) -> char
    recommends
        0 <= d <= 9,
{
    (('0' as int) + d) as char
}

/// The decimal numeral of `n`, most significant digit first, with no leading
/// zeros (`0` is written "0").
pub open spec fn decimal(n: nat) -> Seq<char>
    decreases n,
{
    if n < 10 {
        seq![digit_char(n as int)]
    } else {
        decimal(n / 10).push(digit_char((n % 10) as int))
    }
}

/// The character of a single decimal digit.
pub fn digit_to_char(d: u8) -> (c: char)
    requires
        d <= 9,
    ensures
        c == digit_char(d as int),
{
    match d {
        0 => '0',
        1 => '1',
        2 => '2',
        3 => '3',
        4 => '4',
        5 => '5',
        6 => '6',
        7 => '7',
        8 => '8',
        _ => '9',
    }
}

/// Appends the decimal numeral of `n` to `out`.
pub fn push_decimal(out: &mut String, n: u16)
    ensures
        final(out)@ == old(out)@ + decimal(n as nat),
{
    let mut digits: Vec<char> = Vec::new();
    let mut rest: u16 = n;
    // Peel digits off the low end: `digits` holds them least significant first.
    while rest >= 10
        invariant
            decimal(n as nat) == decimal(rest as nat) + digits@.reverse(),
        decreases rest,
    {
        let d: u8 = (rest % 10) as u8;
        let c = digit_to_char(d);
        proof {
            let prev = digits@;
            assert(decimal(rest as nat) == decimal((rest / 10) as nat).push(c));
            assert(prev.push(c).reverse() =~= seq![c] + prev.reverse());
            assert(decimal((rest / 10) as nat).push(c) + prev.reverse() =~= decimal(
                (rest / 10) as nat,
            ) + (seq![c] + prev.reverse()));
        }
        digits.push(c);
        rest = rest / 10;
    }
    let lead = digit_to_char(rest as u8);
    push_char(out, lead);
    assert(decimal(rest as nat) == seq![lead]);
    let ghost start = out@;
    let mut i: usize = digits.len();
    while i > 0
        invariant
            0 <= i <= digits.len(),
            out@ == start + digits@.subrange(i as int, digits.len() as int).reverse(),
        decreases i,
    {
        i = i - 1;
        let c = digits[i];
        proof {
            let tail = digits@.subrange(i as int + 1, digits.len() as int);
            let wider = digits@.subrange(i as int, digits.len() as int);
            assert(wider =~= seq![c] + tail);
            assert(wider.reverse() =~= tail.reverse().push(c));
            assert((start + tail.reverse()).push(c) =~= start + wider.reverse());
        }
        push_char(out, c);
    }
    proof {
        assert(digits@.subrange(0, digits.len() as int) =~= digits@);
        assert(old(out)@.push(lead) + digits@.reverse() =~= old(out)@ + (seq![lead]
            + digits@.reverse()));
    }
}

} // verus!
