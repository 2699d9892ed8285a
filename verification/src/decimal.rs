use vstd::prelude::*;

verus! {

/// The ASCII digit for `d`, where `0 <= d < 10`.
pub open spec fn digit_char(d: int) -> char {
    (48 + d) as char
}

/// Decimal notation of a natural number, without leading zeros.
pub open spec fn decimal(n: nat) -> Seq<char>
    decreases n,
{
    if n < 10 {
        seq![digit_char(n as int)]
    } else {
        decimal(n / 10).push(digit_char((n % 10) as int))
    }
}

/// Decimal notation of an integer: a minus sign before negative values.
pub open spec fn int_text(n: int) -> Seq<char> {
    if n < 0 {
        seq!['-'] + decimal((-n) as nat)
    } else {
        decimal(n as nat)
    }
}

/// The last `k` decimal digits of `f`, padded with leading zeros.
pub open spec fn padded(f: nat, k: nat) -> Seq<char>
    decreases k,
{
    if k == 0 {
        Seq::empty()
    } else {
        padded(f / 10, (k - 1) as nat).push(digit_char((f % 10) as int))
    }
}

/// The `k`-digit fraction `f` (as in `0.f`) with its trailing zeros dropped.
pub open spec fn fraction_text(f: nat, k: nat) -> Seq<char>
    decreases k,
{
    if k > 0 && f % 10 == 0 {
        fraction_text(f / 10, (k - 1) as nat)
    } else {
        padded(f, k)
    }
}

/// The number of seconds in `us` microseconds, written as the shortest
/// decimal: `60000000` gives `60`, `60500000` gives `60.5`, `-1` gives `-0.000001`.
pub open spec fn seconds_text(us: int) -> Seq<char> {
    let a: nat = if us < 0 { (-us) as nat } else { us as nat };
    let sign: Seq<char> = if us < 0 { seq!['-'] } else { Seq::empty() };
    let frac: nat = a % 1_000_000;
    sign + decimal(a / 1_000_000) + if frac == 0 {
        Seq::empty()
    } else {
        seq!['.'] + fraction_text(frac, 6)
    }
}

/// A list of texts pushed one by one keeps the views of the texts in order.
pub fn push_text(v: &mut Vec<String>, t: String)
    ensures
        final(v).deep_view() == old(v).deep_view().push(t@),
{
    v.push(t);
    proof {
        assert(final(v).deep_view() =~= old(v).deep_view().push(t@));
    }
}

/// Appends an owned copy of `t` to `v`.
pub fn push_str(v: &mut Vec<String>, t: &str)
    ensures
        final(v).deep_view() == old(v).deep_view().push(t@),
{
    push_text(v, t.to_owned());
}

/// `String::push`: appends `c`. The contract claims that the text then holds
/// what it held before followed by exactly that character, as the
/// documentation of `String::push` says.
#[verifier::external_body]
pub(crate) fn push_char(s: &mut String, c: char)
    ensures
        final(s)@ == old(s)@.push(c),
{
    s.push(c);
}

fn digit(d: u64) -> (c: char)
    requires
        d < 10,
    ensures
        c == digit_char(d as int),
{
    let b: u8 = 48u8 + d as u8;
    b as char
}

/// Appends the decimal notation of `n`.
pub fn push_decimal(s: &mut String, n: u64)
    ensures
        final(s)@ == old(s)@ + decimal(n as nat),
    decreases n,
{
    if n >= 10 {
        push_decimal(s, n / 10);
    }
    push_char(s, digit(n % 10));
    proof {
        assert(decimal(n as nat) == if n < 10 { seq![digit_char(n as int)] } else {
            decimal((n / 10) as nat).push(digit_char((n % 10) as int))
        });
    }
}

/// Appends the decimal notation of `n`, with a minus sign when negative.
pub fn push_int(s: &mut String, n: i64)
    ensures
        final(s)@ == old(s)@ + int_text(n as int),
{
    if n < 0 {
        push_char(s, '-');
        let m: u64 = (0i128 - n as i128) as u64;
        push_decimal(s, m);
        proof {
            assert(final(s)@ =~= old(s)@ + int_text(n as int));
        }
    } else {
        push_decimal(s, n as u64);
    }
}

/// The decimal notation of `n`.
pub fn int_string(n: i64) -> (r: String)
    ensures
        r@ == int_text(n as int),
{
    let mut s = String::new();
    push_int(&mut s, n);
    proof {
        assert(s@ =~= int_text(n as int));
    }
    s
}

fn push_padded(s: &mut String, f: u64, k: u64)
    ensures
        final(s)@ == old(s)@ + padded(f as nat, k as nat),
    decreases k,
{
    if k > 0 {
        push_padded(s, f / 10, k - 1);
        push_char(s, digit(f % 10));
    }
    proof {
        if k == 0 {
            assert(final(s)@ =~= old(s)@ + padded(f as nat, k as nat));
        }
    }
}

/// Appends the seconds in `us` microseconds as the shortest decimal
/// (see [`seconds_text`]).
pub fn push_seconds(s: &mut String, us: i64)
    ensures
        final(s)@ == old(s)@ + seconds_text(us as int),
{
    let a: u64 = if us < 0 { (0i128 - us as i128) as u64 } else { us as u64 };
    if us < 0 {
        push_char(s, '-');
    }
    let ghost s1 = s@;
    push_decimal(s, a / 1_000_000);
    let frac = a % 1_000_000;
    if frac != 0 {
        push_char(s, '.');
        let mut f = frac;
        let mut k: u64 = 6;
        while k > 0 && f % 10 == 0
            invariant
                k <= 6,
                fraction_text(f as nat, k as nat) == fraction_text(frac as nat, 6),
            decreases k,
        {
            f = f / 10;
            k = k - 1;
        }
        push_padded(s, f, k);
    }
    proof {
        assert(final(s)@ =~= old(s)@ + seconds_text(us as int));
    }
}

/// The seconds in `us` microseconds as the shortest decimal
/// (see [`seconds_text`]).
pub fn seconds_string(us: i64) -> (r: String)
    ensures
        r@ == seconds_text(us as int),
{
    let mut s = String::new();
    push_seconds(&mut s, us);
    proof {
        assert(s@ =~= seconds_text(us as int));
    }
    s
}

} // verus!
