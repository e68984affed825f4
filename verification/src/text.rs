//! Text helpers shared by the samples: decimal rendering of integers and
//! lossy UTF-8 decoding.
use vstd::prelude::*;

verus! {

/// The character of a decimal digit `d` (`0 <= d < 10`).
pub open spec fn digit_char(d: int) -> char {
    if d == 0 { '0' }
    else if d == 1 { '1' }
    else if d == 2 { '2' }
    else if d == 3 { '3' }
    else if d == 4 { '4' }
    else if d == 5 { '5' }
    else if d == 6 { '6' }
    else if d == 7 { '7' }
    else if d == 8 { '8' }
    else { '9' }
}

/// Whether `c` is one of the ten decimal digit characters.
pub open spec fn is_digit_char(c: char) -> bool {
    exists|d: int| 0 <= d < 10 && digit_char(d) == c
}

/// The decimal representation of `n`, without sign or leading zeros
/// (`0` is written `"0"`).
pub open spec fn decimal(n: nat) -> Seq<char>
    decreases n,
{
    if n < 10 {
        seq![digit_char(n as int)]
    } else {
        decimal(n / 10).push(digit_char((n % 10) as int))
    }
}

/// The digit `d` as a one-character string.
fn digit_str(d: u128) -> (res: &'static str)
    requires
        d < 10,
    ensures
        res@ == seq![digit_char(d as int)],
{
    proof {
        reveal_strlit("0");
        reveal_strlit("1");
        reveal_strlit("2");
        reveal_strlit("3");
        reveal_strlit("4");
        reveal_strlit("5");
        reveal_strlit("6");
        reveal_strlit("7");
        reveal_strlit("8");
        reveal_strlit("9");
    }
    if d == 0 { "0" }
    else if d == 1 { "1" }
    else if d == 2 { "2" }
    else if d == 3 { "3" }
    else if d == 4 { "4" }
    else if d == 5 { "5" }
    else if d == 6 { "6" }
    else if d == 7 { "7" }
    else if d == 8 { "8" }
    else { "9" }
}

/// Appends the decimal representation of `n` to `out`.
pub fn push_decimal(out: &mut String, n: u128)
    ensures
        final(out)@ == old(out)@ + decimal(n as nat),
    decreases n,
{
    if n < 10 {
        out.append(digit_str(n));
    } else {
        push_decimal(out, n / 10);
        out.append(digit_str(n % 10));
        proof {
            assert(decimal(n as nat) == decimal((n / 10) as nat).push(digit_char((n % 10) as int)));
        }
    }
}

/// The value of a decimal digit character.
pub open spec fn digit_value(c: char) -> nat {
    if c == '0' { 0 }
    else if c == '1' { 1 }
    else if c == '2' { 2 }
    else if c == '3' { 3 }
    else if c == '4' { 4 }
    else if c == '5' { 5 }
    else if c == '6' { 6 }
    else if c == '7' { 7 }
    else if c == '8' { 8 }
    else { 9 }
}

/// The number that a sequence of decimal digits denotes.
pub open spec fn decimal_value(s: Seq<char>) -> nat
    decreases s.len(),
{
    if s.len() == 0 {
        0
    } else {
        decimal_value(s.drop_last()) * 10 + digit_value(s.last())
    }
}

/// Reading a decimal rendering back gives the number rendered.
pub proof fn lemma_decimal_value(n: nat)
    ensures
        decimal_value(decimal(n)) == n,
    decreases n,
{
    let d = decimal(n);
    if n < 10 {
        assert(d.drop_last() =~= Seq::<char>::empty());
        assert(d.last() == digit_char(n as int));
        assert(digit_value(digit_char(n as int)) == n);
        assert(decimal_value(d) == decimal_value(d.drop_last()) * 10 + digit_value(d.last()));
    } else {
        lemma_decimal_value(n / 10);
        assert(d.drop_last() =~= decimal(n / 10));
        assert(d.last() == digit_char((n % 10) as int));
        assert(digit_value(digit_char((n % 10) as int)) == n % 10);
        assert(decimal_value(d) == decimal_value(d.drop_last()) * 10 + digit_value(d.last()));
        assert(n == (n / 10) * 10 + n % 10);
    }
}

/// A decimal rendering is never empty.
pub proof fn lemma_decimal_nonempty(n: nat)
    ensures
        decimal(n).len() >= 1,
        n >= 10 ==> decimal(n).len() >= 2,
    decreases n,
{
    if n >= 10 {
        lemma_decimal_nonempty(n / 10);
    }
}

proof fn lemma_digit_char_injective(a: int, b: int)
    requires
        0 <= a < 10,
        0 <= b < 10,
        digit_char(a) == digit_char(b),
    ensures
        a == b,
{
}

/// Every character of a decimal rendering is a digit.
pub proof fn lemma_decimal_digits(n: nat)
    ensures
        forall|i: int| 0 <= i < decimal(n).len() ==> is_digit_char(#[trigger] decimal(n)[i]),
    decreases n,
{
    if n < 10 {
        assert(is_digit_char(decimal(n)[0])) by {
            assert(digit_char(n as int) == decimal(n)[0]);
        }
    } else {
        lemma_decimal_digits(n / 10);
        let d = decimal(n);
        assert forall|i: int| 0 <= i < d.len() implies is_digit_char(#[trigger] d[i]) by {
            if i == d.len() - 1 {
                assert(digit_char((n % 10) as int) == d[i]);
            } else {
                assert(d[i] == decimal(n / 10)[i]);
            }
        }
    }
}

/// Distinct numbers have distinct decimal renderings.
pub proof fn lemma_decimal_injective(a: nat, b: nat)
    requires
        decimal(a) == decimal(b),
    ensures
        a == b,
    decreases a,
{
    lemma_decimal_nonempty(a);
    lemma_decimal_nonempty(b);
    if a < 10 && b < 10 {
        assert(decimal(a) == seq![digit_char(a as int)]);
        assert(decimal(b) == seq![digit_char(b as int)]);
        assert(decimal(a)[0] == digit_char(a as int));
        assert(decimal(b)[0] == digit_char(b as int));
        lemma_digit_char_injective(a as int, b as int);
    } else if a >= 10 && b >= 10 {
        let da = decimal(a);
        let db = decimal(b);
        assert(da.last() == db.last());
        lemma_digit_char_injective((a % 10) as int, (b % 10) as int);
        assert(da.drop_last() =~= decimal(a / 10));
        assert(db.drop_last() =~= decimal(b / 10));
        lemma_decimal_injective(a / 10, b / 10);
    } else {
        lemma_decimal_nonempty(a / 10);
        lemma_decimal_nonempty(b / 10);
        assert(decimal(a).len() != decimal(b).len());
    }
}

/// What `String::from_utf8_lossy` makes of `bytes`: the UTF-8 text they
/// hold, each invalid sequence replaced by U+FFFD.
pub uninterp spec fn utf8_lossy(bytes: Seq<u8>) -> Seq<char>;

/// `String::from_utf8_lossy`, made an owned `String`. Its result is named
/// by `utf8_lossy`; the one fact stated beside the name is that the text is
/// empty exactly when the bytes are (every byte either belongs to a decoded
/// character or is replaced by U+FFFD).
#[verifier::external_body]
pub(crate) fn decode_utf8_lossy(bytes: &[u8]) -> (text: String)
    ensures
        text@ == utf8_lossy(bytes@),
        (text@.len() == 0) == (bytes@.len() == 0),
{
    String::from_utf8_lossy(bytes).into_owned()
}

/// The decimal representation of a signed number, with a leading `-` when
/// it is negative.
pub open spec fn signed_decimal(n: int) -> Seq<char> {
    if n < 0 { seq!['-'] + decimal((-n) as nat) } else { decimal(n as nat) }
}

/// Appends the decimal representation of the signed number `n` to `out`.
pub fn push_signed_decimal(out: &mut String, n: i64)
    ensures
        final(out)@ == old(out)@ + signed_decimal(n as int),
{
    if n < 0 {
        proof { reveal_strlit("-"); }
        out.append("-");
        let magnitude: u128 = (0i128 - n as i128) as u128;
        push_decimal(out, magnitude);
        proof {
            assert(old(out)@ + seq!['-'] + decimal(magnitude as nat)
                =~= old(out)@ + signed_decimal(n as int));
        }
    } else {
        push_decimal(out, n as u128);
    }
}

} // verus!
