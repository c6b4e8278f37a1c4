//! Text that the library composes: decimal numerals, conversion and comparison of strings.

use vstd::prelude::*;

verus! {

/// The character of one decimal digit.
pub open spec fn digit_char(d: nat) -> char
    recommends
        d < 10,
{
    (48 + d) as char
}

/// The decimal numeral of `n`, without leading zeros.
pub open spec fn decimal(n: nat) -> Seq<char>
    decreases n,
{
    if n < 10 {
        seq![digit_char(n)]
    } else {
        decimal(n / 10).push(digit_char(n % 10))
    }
}

/// `std`'s conversion of a string slice into a `String`: the text is kept.
pub assume_specification<'a>[ <String as From<&'a str>>::from ](s: &str) -> (r: String)
    ensures
        r@ == s@,
;

/// `std`'s conversion of a value into its own type: the value is kept.
pub assume_specification<A>[ <A as std::convert::From<A>>::from ](value: A) -> (r: A)
    ensures
        r == value,
;

/// `std`'s equality of string slices: equal exactly when the texts are equal.
pub assume_specification[ <str as PartialEq>::eq ](a: &str, b: &str) -> (r: bool)
    ensures
        r == (a@ == b@),
;

/// Whether `text` is a string that `from` converts into, as its `Into` says.
pub open spec fn converts<T: Into<String>>(from: T, text: String) -> bool {
    call_ensures(<T as Into<String>>::into, (from,), text)
}

/// The text of an optional string.
pub open spec fn text_view(text: Option<String>) -> Option<Seq<char>> {
    match text {
        Some(text) => Some(text@),
        None => None,
    }
}

/// The numeral of one decimal digit.
fn digit_text(d: usize) -> (r: &'static str)
    requires
        d < 10,
    ensures
        r@ == seq![digit_char(d as nat)],
{
    proof {
        reveal_strlit("0");
        reveal_strlit("1");
        reveal_strlit("2");
        reveal_strlit("3");
        reveal_strlit("4");
        reveal_strlit("5");
        reveal_strlit("6");
        reveal_strlit("7");
        reveal_strlit("8");
        reveal_strlit("9");
    }
    match d {
        0 => "0",
        1 => "1",
        2 => "2",
        3 => "3",
        4 => "4",
        5 => "5",
        6 => "6",
        7 => "7",
        8 => "8",
        _ => "9",
    }
}

/// The decimal numeral of `n` as a string.
pub(crate) fn decimal_text(n: usize) -> (r: String)
    ensures
        r@ == decimal(n as nat),
    decreases n,
{
    if n < 10 {
        String::from(digit_text(n))
    } else {
        let mut r = decimal_text(n / 10);
        r.append(digit_text(n % 10));
        r
    }
}

/// Two numbers with the same decimal numeral are the same number.
pub proof fn law_decimal_injective(a: nat, b: nat)
    requires
        decimal(a) == decimal(b),
    ensures
        a == b,
    decreases a,
{
    assert(decimal(a).last() == digit_char(a % 10));
    assert(decimal(b).last() == digit_char(b % 10));
    assert(digit_char(a % 10) as nat == 48 + a % 10);
    assert(digit_char(b % 10) as nat == 48 + b % 10);
    if a >= 10 && b >= 10 {
        assert(decimal(a).drop_last() =~= decimal(a / 10));
        assert(decimal(b).drop_last() =~= decimal(b / 10));
        law_decimal_injective(a / 10, b / 10);
    } else if a >= 10 {
        assert(decimal(a / 10).len() >= 1);
        assert(decimal(a).len() == 1);
    } else if b >= 10 {
        assert(decimal(b / 10).len() >= 1);
    }
}

/// A numeral is read from the left in tens: the numerals below ten are the ten digits,
/// and that of `10 * tens + units` is that of `tens` with the digit of `units` behind it.
pub proof fn law_decimal_places(tens: nat, units: nat)
    requires
        units < 10,
    ensures
        decimal(0) == seq!['0'],
        decimal(1) == seq!['1'],
        decimal(2) == seq!['2'],
        decimal(3) == seq!['3'],
        decimal(4) == seq!['4'],
        decimal(5) == seq!['5'],
        decimal(6) == seq!['6'],
        decimal(7) == seq!['7'],
        decimal(8) == seq!['8'],
        decimal(9) == seq!['9'],
        tens > 0 ==> decimal(10 * tens + units) == decimal(tens) + decimal(units),
{
    if tens > 0 {
        assert((10 * tens + units) / 10 == tens);
        assert((10 * tens + units) % 10 == units);
        assert(decimal(10 * tens + units) =~= decimal(tens) + decimal(units));
    }
}

/// The text of an optional string is that of the string where there is one.
pub proof fn law_text_view(text: String)
    ensures
        text_view(Some(text)) == Some(text@),
        text_view(None) is None,
{
}

/// A string slice, or a string, converts into a string of the same text and into no
/// other.
pub proof fn law_conversion_keeps_text(
    slice: &str,
    of_slice: String,
    string: String,
    of_string: String,
)
    ensures
        converts(slice, of_slice) ==> of_slice@ == slice@,
        converts(string, of_string) ==> of_string == string,
{
}

} // verus!
