//! Shared helpers of the ShopFlux BFF handlers.
use vstd::prelude::*;
use crate::format::{
    decimal, fixed_digits, lemma_decimal_injective, lemma_two_digits_injective, write_decimal,
    write_fixed,
};
use crate::text::concat2;

verus! {

/// A price in cents as `units.cents`, the cents always two digits.
pub open spec fn price_text(cents: u64) -> Seq<char> {
    decimal((cents / 100) as nat) + "."@ + fixed_digits((cents % 100) as nat, 10, 2)
}

/// Formats a price in cents as `units.cents` (`format!("{}.{:02}", ..)`).
pub fn format_price(cents: u64) -> (r: String)
    ensures
        r@ == price_text(cents),
{
    let units = write_decimal(cents / 100);
    let with_point = concat2(units.as_str(), ".");
    let fraction = write_fixed(cents % 100, 10, 2);
    concat2(with_point.as_str(), fraction.as_str())
}

/// Different prices are written differently: the text of a price
/// determines the amount.
pub proof fn law_price_text_unique(a: u64, b: u64)
    requires
        price_text(a) == price_text(b),
    ensures
        a == b,
{
    reveal_strlit(".");
    let da = decimal((a / 100) as nat);
    let db = decimal((b / 100) as nat);
    let fa = fixed_digits((a % 100) as nat, 10, 2);
    let fb = fixed_digits((b % 100) as nat, 10, 2);
    let ta = price_text(a);
    assert(ta == da + "."@ + fa);
    assert(price_text(b) == db + "."@ + fb);
    lemma_two_digits_injective((a % 100) as nat, (a % 100) as nat);
    lemma_two_digits_injective((b % 100) as nat, (b % 100) as nat);
    assert(da.len() == db.len());
    assert(da =~= ta.subrange(0, da.len() as int));
    assert(db =~= ta.subrange(0, da.len() as int));
    assert(fa =~= ta.subrange(da.len() as int + 1, ta.len() as int));
    assert(fb =~= ta.subrange(da.len() as int + 1, ta.len() as int));
    lemma_decimal_injective((a / 100) as nat, (b / 100) as nat);
    lemma_two_digits_injective((a % 100) as nat, (b % 100) as nat);
}

} // verus!
