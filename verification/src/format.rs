//! Number formatting: decimal, zero-padded decimal and fixed-width
//! lowercase hexadecimal, as `format!` writes `{}`, `{:02}` and `{:016x}`.
use vstd::prelude::*;

verus! {

/// Appends `c` to `s`.
/// Calls `String::push`, which appends one character; the contract states
/// exactly that.
#[verifier::external_body]
pub(crate) fn push_char(s: &mut String, c: char)
    ensures
        final(s)@ == old(s)@.push(c),
{
    s.push(c)
}

/// The character of a decimal or hexadecimal digit `d < 16`: `0`–`9`, then
/// `a`–`f`.
pub open spec fn digit_char(d: nat) -> char {
    if d < 10 {
        ((d + 48) as u32) as char
    } else {
        ((d + 87) as u32) as char
    }
}

/// The decimal numeral of `n`, without leading zeros.
pub open spec fn decimal(n: nat) -> Seq<char>
    decreases n,
{
    if n < 10 {
        seq![digit_char(n)]
    } else {
        decimal(n / 10).push(digit_char(n % 10))
    }
}

/// The last `width` digits of `n` in base `base`, most significant first,
/// padded with zeros.
pub open spec fn fixed_digits(n: nat, base: nat, width: nat) -> Seq<char>
    decreases width,
{
    if width == 0 || base == 0 {
        Seq::empty()
    } else {
        fixed_digits(n / base, base, (width - 1) as nat).push(digit_char(n % base))
    }
}

proof fn lemma_digit_char_injective(d1: nat, d2: nat)
    requires
        d1 < 16,
        d2 < 16,
        digit_char(d1) == digit_char(d2),
    ensures
        d1 == d2,
{
    assert(digit_char(d1) as u32 == (if d1 < 10 { d1 + 48 } else { d1 + 87 }));
    assert(digit_char(d2) as u32 == (if d2 < 10 { d2 + 48 } else { d2 + 87 }));
}

/// A decimal numeral has one digit exactly for numbers below ten.
proof fn lemma_decimal_len(n: nat)
    ensures
        decimal(n).len() >= 1,
        (decimal(n).len() == 1) == (n < 10),
    decreases n,
{
    if n >= 10 {
        lemma_decimal_len(n / 10);
    }
}

/// Different numbers have different decimal numerals.
pub proof fn lemma_decimal_injective(n: nat, m: nat)
    requires
        decimal(n) == decimal(m),
    ensures
        n == m,
    decreases n,
{
    lemma_decimal_len(n);
    lemma_decimal_len(m);
    if n < 10 {
        assert(decimal(n)[0] == digit_char(n));
        assert(decimal(m)[0] == digit_char(m));
        lemma_digit_char_injective(n, m);
    } else {
        let dn = decimal(n);
        let dm = decimal(m);
        assert(dn.drop_last() == decimal(n / 10));
        assert(dm.drop_last() == decimal(m / 10));
        assert(dn.last() == digit_char(n % 10));
        assert(dm.last() == digit_char(m % 10));
        lemma_decimal_injective(n / 10, m / 10);
        lemma_digit_char_injective(n % 10, m % 10);
    }
}

/// Two zero-padded decimal digits determine the number modulo one hundred.
pub proof fn lemma_two_digits_injective(n: nat, m: nat)
    requires
        fixed_digits(n, 10, 2) == fixed_digits(m, 10, 2),
    ensures
        fixed_digits(n, 10, 2).len() == 2,
        n % 100 == m % 100,
{
    reveal_with_fuel(fixed_digits, 3);
    let fn_ = fixed_digits(n, 10, 2);
    let fm = fixed_digits(m, 10, 2);
    assert(fn_ =~= seq![digit_char((n / 10) % 10), digit_char(n % 10)]);
    assert(fm =~= seq![digit_char((m / 10) % 10), digit_char(m % 10)]);
    assert(fn_[0] == fm[0]);
    assert(fn_[1] == fm[1]);
    lemma_digit_char_injective((n / 10) % 10, (m / 10) % 10);
    lemma_digit_char_injective(n % 10, m % 10);
    assert(n % 100 == ((n / 10) % 10) * 10 + n % 10) by (nonlinear_arith);
    assert(m % 100 == ((m / 10) % 10) * 10 + m % 10) by (nonlinear_arith);
}

fn digit(d: u64) -> (c: char)
    requires
        d < 16,
    ensures
        c == digit_char(d as nat),
{
    if d < 10 {
        ((d as u8) + 48u8) as char
    } else {
        ((d as u8) + 87u8) as char
    }
}

/// The decimal numeral of `n`.
pub fn write_decimal(n: u64) -> (s: String)
    ensures
        s@ == decimal(n as nat),
    decreases n,
{
    if n < 10 {
        let mut s = String::new();
        push_char(&mut s, digit(n));
        assert(s@ =~= decimal(n as nat));
        s
    } else {
        let mut s = write_decimal(n / 10);
        push_char(&mut s, digit(n % 10));
        s
    }
}

/// The last `width` digits of `n` in base `base`, zero-padded.
pub fn write_fixed(n: u64, base: u64, width: u32) -> (s: String)
    requires
        2 <= base <= 16,
    ensures
        s@ == fixed_digits(n as nat, base as nat, width as nat),
    decreases width,
{
    if width == 0 {
        let s = String::new();
        assert(s@ =~= fixed_digits(n as nat, base as nat, width as nat));
        s
    } else {
        let mut s = write_fixed(n / base, base, width - 1);
        push_char(&mut s, digit(n % base));
        s
    }
}

} // verus!
