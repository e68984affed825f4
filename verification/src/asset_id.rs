//! Asset identifiers: `"asset"` followed by the decimal number of
//! milliseconds elapsed since the Unix epoch when the identifier was made.
use vstd::prelude::*;
use crate::text::{
    decimal, decimal_value, push_decimal, is_digit_char, lemma_decimal_digits, lemma_decimal_injective,
    lemma_decimal_value,
};

verus! {

/// The identifier formed from a clock reading of `millis` milliseconds
/// since the Unix epoch.
pub open spec fn asset_id_text(millis: nat) -> Seq<char> {
    "asset"@ + decimal(millis)
}

/// `std::time::SystemTime::elapsed`, taken on `UNIX_EPOCH`: the time from
/// the epoch to the current system time, or `None` where the system clock
/// reads earlier than the epoch. The reading depends on the clock, so
/// nothing is stated of it.
#[verifier::external_body]
fn time_since_epoch() -> Option<std::time::Duration> {
    std::time::UNIX_EPOCH.elapsed().ok()
}

/// `std::time::Duration::as_millis`: the whole milliseconds of a duration.
/// A `Duration` is opaque here, so nothing is stated of the number.
#[verifier::external_body]
fn whole_millis(duration: &std::time::Duration) -> u128 {
    duration.as_millis()
}

/// The identifier for a clock reading of `millis` milliseconds since the
/// epoch: `"asset"` followed by `millis` in decimal.
pub fn asset_id_from_millis(millis: u128) -> (id: String)
    ensures
        id@ == asset_id_text(millis as nat),
{
    let mut id = String::from_str("asset");
    push_decimal(&mut id, millis);
    id
}

/// A fresh asset identifier from the current system time; `None` where the
/// system clock reads earlier than the Unix epoch.
pub fn generate_asset_id() -> (id: Option<String>)
    ensures
        id matches Some(s) ==> exists|millis: u128| s@ == asset_id_text(millis as nat),
{
    match time_since_epoch() {
        Some(elapsed) => {
            let millis = whole_millis(&elapsed);
            Some(asset_id_from_millis(millis))
        },
        None => None,
    }
}

/// Two clock readings give the same identifier only when they are the same
/// reading: identifiers made at different milliseconds never collide.
pub proof fn lemma_asset_id_injective(a: nat, b: nat)
    requires
        asset_id_text(a) == asset_id_text(b),
    ensures
        a == b,
{
    let pa = "asset"@;
    assert(decimal(a) =~= asset_id_text(a).subrange(pa.len() as int, asset_id_text(a).len() as int));
    assert(decimal(b) =~= asset_id_text(b).subrange(pa.len() as int, asset_id_text(b).len() as int));
    lemma_decimal_injective(a, b);
}

/// Every identifier is `"asset"` followed by one or more decimal digits.
pub proof fn lemma_asset_id_shape(millis: nat)
    ensures
        asset_id_text(millis).len() > "asset"@.len(),
        asset_id_text(millis).subrange(0, "asset"@.len() as int) == "asset"@,
        forall|i: int| "asset"@.len() <= i < asset_id_text(millis).len()
            ==> is_digit_char(#[trigger] asset_id_text(millis)[i]),
{
    crate::text::lemma_decimal_nonempty(millis);
    lemma_decimal_digits(millis);
    let t = asset_id_text(millis);
    assert(t.subrange(0, "asset"@.len() as int) =~= "asset"@);
    assert forall|i: int| "asset"@.len() <= i < t.len() implies is_digit_char(#[trigger] t[i]) by {
        assert(t[i] == decimal(millis)[i - "asset"@.len()]);
    }
}

/// The clock reading that an identifier carries: the number its digits
/// after `"asset"` denote.
pub open spec fn asset_id_millis(id: Seq<char>) -> nat {
    decimal_value(id.skip("asset"@.len() as int))
}

/// An identifier carries the reading it was made from: later readings give
/// identifiers whose numbers are no smaller, and readings within the same
/// millisecond give the same identifier.
pub proof fn lemma_asset_id_order(a: nat, b: nat)
    ensures
        asset_id_millis(asset_id_text(a)) == a,
        asset_id_millis(asset_id_text(b)) == b,
        a <= b ==> asset_id_millis(asset_id_text(a)) <= asset_id_millis(asset_id_text(b)),
        a == b ==> asset_id_text(a) == asset_id_text(b),
{
    assert(asset_id_text(a).skip("asset"@.len() as int) =~= decimal(a));
    assert(asset_id_text(b).skip("asset"@.len() as int) =~= decimal(b));
    lemma_decimal_value(a);
    lemma_decimal_value(b);
}

} // verus!
