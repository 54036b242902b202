//! Text building blocks: decimal numerals and lossy UTF-8 decoding.

use vstd::prelude::*;
use vstd::string::*;
use vstd::utf8::*;

verus! {

/// The contents of a vector of strings.
pub open spec fn words_of(v: Seq<String>) -> Seq<Seq<char>> {
    Seq::new(v.len(), |i: int| v[i]@)
}

/// The character of the decimal digit `d`.
pub open spec fn digit_char(d: nat) -> char {
    if d == 0 {
        '0'
    } else if d == 1 {
        '1'
    } else if d == 2 {
        '2'
    } else if d == 3 {
        '3'
    } else if d == 4 {
        '4'
    } else if d == 5 {
        '5'
    } else if d == 6 {
        '6'
    } else if d == 7 {
        '7'
    } else if d == 8 {
        '8'
    } else {
        '9'
    }
}

/// The decimal numeral of `n`, without leading zeros.
pub open spec fn decimal(n: nat) -> Seq<char>
    decreases n,
{
    if n < 10 {
        seq![digit_char(n)]
    } else {
        decimal(n / 10).push(digit_char(n % 10))
    }
}

/// The decimal numeral of `i`, with a leading minus sign when `i` is negative.
pub open spec fn decimal_int(i: int) -> Seq<char> {
    if i < 0 {
        seq!['-'] + decimal((-i) as nat)
    } else {
        decimal(i as nat)
    }
}

/// The number that a sequence of decimal digits spells.
pub open spec fn numeral_value(s: Seq<char>) -> int
    decreases s.len(),
{
    if s.len() == 0 {
        0
    } else {
        10 * numeral_value(s.drop_last()) + (s.last() as int - '0' as int)
    }
}

/// A numeral consists of decimal digits, starts with 0 for the number 0 only, and
/// spells the number it was made of.
pub proof fn numerals_spell_their_number(n: nat)
    ensures
        decimal(n).len() > 0,
        forall|i: int| 0 <= i < decimal(n).len() ==> '0' <= #[trigger] decimal(n)[i] <= '9',
        n > 0 ==> decimal(n)[0] != '0',
        n == 0 ==> decimal(n).len() == 1,
        numeral_value(decimal(n)) == n,
    decreases n,
{
    reveal_with_fuel(numeral_value, 2);
    if n >= 10 {
        numerals_spell_their_number(n / 10);
        assert(decimal(n).drop_last() =~= decimal(n / 10));
        assert(decimal(n).last() == digit_char(n % 10));
    } else {
        assert(decimal(n).drop_last() =~= seq![]);
        assert(decimal(n).last() == digit_char(n));
    }
}

/// The numeral of a negative number is a minus sign and the numeral of its
/// magnitude.
pub proof fn signed_numerals_spell_their_number(i: int)
    ensures
        i >= 0 ==> numeral_value(decimal_int(i)) == i && decimal_int(i)[0] != '-',
        i < 0 ==> {
            &&& decimal_int(i)[0] == '-'
            &&& decimal_int(i).len() > 1
            &&& decimal_int(i)[1] != '0'
            &&& numeral_value(decimal_int(i).subrange(1, decimal_int(i).len() as int)) == -i
            &&& forall|k: int|
                1 <= k < decimal_int(i).len() ==> '0' <= #[trigger] decimal_int(i)[k] <= '9'
        },
        i >= 0 ==> decimal_int(i) == decimal(i as nat),
{
    if i >= 0 {
        numerals_spell_their_number(i as nat);
    } else {
        let magnitude = decimal((-i) as nat);
        numerals_spell_their_number((-i) as nat);
        assert(decimal_int(i).subrange(1, decimal_int(i).len() as int) =~= magnitude);
        assert forall|k: int| 1 <= k < decimal_int(i).len() implies '0' <= #[trigger] decimal_int(
            i,
        )[k] <= '9' by {
            assert(decimal_int(i)[k] == magnitude[k - 1]);
        }
        assert(decimal_int(i)[1] == magnitude[0]);
    }
}

/// The contents of a vector of strings are those of its strings, in their order.
pub proof fn words_are_the_strings(v: Seq<String>)
    ensures
        words_of(v).len() == v.len(),
        forall|i: int| 0 <= i < v.len() ==> #[trigger] words_of(v)[i] == v[i]@,
{
}

fn digit_str(d: u64) -> (s: &'static str)
    requires
        d < 10,
    ensures
        s@ == seq![digit_char(d as nat)],
{
    proof {
        reveal_strlit("0");
        reveal_strlit("1");
        reveal_strlit("2");
        reveal_strlit("3");
        reveal_strlit("4");
        reveal_strlit("5");
        reveal_strlit("6");
        reveal_strlit("7");
        reveal_strlit("8");
        reveal_strlit("9");
    }
    if d == 0 {
        "0"
    } else if d == 1 {
        "1"
    } else if d == 2 {
        "2"
    } else if d == 3 {
        "3"
    } else if d == 4 {
        "4"
    } else if d == 5 {
        "5"
    } else if d == 6 {
        "6"
    } else if d == 7 {
        "7"
    } else if d == 8 {
        "8"
    } else {
        "9"
    }
}

/// Writes `n` in decimal.
pub fn decimal_u64(n: u64) -> (s: String)
    ensures
        s@ == decimal(n as nat),
    decreases n,
{
    let mut s = if n < 10 {
        String::new()
    } else {
        decimal_u64(n / 10)
    };
    s.append(digit_str(n % 10));
    s
}

/// Writes `i` in decimal, with a minus sign when it is negative.
pub fn decimal_i32(i: i32) -> (s: String)
    ensures
        s@ == decimal_int(i as int),
{
    if i < 0 {
        proof {
            reveal_strlit("-");
        }
        let magnitude: u64 = (-(i as i64)) as u64;
        let mut s = "-".to_string();
        s.append(decimal_u64(magnitude).as_str());
        s
    } else {
        decimal_u64(i as u64)
    }
}

/// Whether `text` keeps what is valid UTF-8 at either end of `bytes`: it begins
/// with the decoding of every valid beginning of `bytes`, and ends with the
/// decoding of every valid end of `bytes`.
pub open spec fn keeps_valid_ends(bytes: Seq<u8>, text: Seq<char>) -> bool {
    &&& forall|k: int|
        0 <= k <= bytes.len() && valid_utf8(#[trigger] bytes.take(k)) ==> decode_utf8(
            bytes.take(k),
        ).is_prefix_of(text)
    &&& forall|k: int|
        0 <= k <= bytes.len() && valid_utf8(#[trigger] bytes.skip(k)) ==> decode_utf8(
            bytes.skip(k),
        ).is_suffix_of(text)
}

/// What [`String::from_utf8_lossy`] makes of `bytes`.
pub uninterp spec fn utf8_lossy(bytes: Seq<u8>) -> Seq<char>;

/// Decodes `bytes` with [`String::from_utf8_lossy`].
///
/// Trusted: the text depends on `bytes` alone; valid UTF-8 is decoded
/// unchanged; if the bytes are not valid UTF-8, the text holds the replacement
/// character U+FFFD, and what is valid before the first and after the last
/// malformed sequence is decoded unchanged. How many replacement characters
/// stand for one malformed stretch is left unsaid.
#[verifier::external_body]
fn from_utf8_lossy(bytes: &[u8]) -> (text: String)
    ensures
        text@ == utf8_lossy(bytes@),
        valid_utf8(bytes@) ==> text@ == decode_utf8(bytes@),
        !valid_utf8(bytes@) ==> text@.contains('\u{FFFD}'),
        keeps_valid_ends(bytes@, text@),
{
    String::from_utf8_lossy(bytes).into_owned()
}

/// Decodes the bytes that a tool wrote.
///
/// Malformed UTF-8 never fails: it is replaced, and the valid text before and
/// after it stays. Text that was encoded as UTF-8
/// comes back as it was.
pub fn decode_lossy(bytes: &[u8]) -> (text: String)
    ensures
        text@ == utf8_lossy(bytes@),
        valid_utf8(bytes@) ==> text@ == decode_utf8(bytes@),
        !valid_utf8(bytes@) ==> text@.contains('\u{FFFD}'),
        keeps_valid_ends(bytes@, text@),
        forall|t: Seq<char>| bytes@ == #[trigger] encode_utf8(t) ==> text@ == t,
{
    let text = from_utf8_lossy(bytes);
    proof {
        assert forall|t: Seq<char>| bytes@ == #[trigger] encode_utf8(t) implies text@ == t by {
            encode_utf8_valid_utf8(t);
            encode_utf8_decode_utf8(t);
        }
    }
    text
}

} // verus!
