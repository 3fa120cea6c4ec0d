//! Country flags, written as pairs of regional-indicator symbols.

use vstd::prelude::*;

verus! {

/// Code point of the regional-indicator symbol for the letter A. The
/// symbols for B to Z follow it in alphabetical order.
pub const REGIONAL_INDICATOR_A: u32 = 0x1F1E6;

/// Whether `c` is one of the 52 letters of ASCII.
pub open spec fn is_ascii_letter(c: char) -> bool {
    ('a' <= c && c <= 'z') || ('A' <= c && c <= 'Z')
}

/// `c` in upper case where it is a lower-case ASCII letter, else `c`.
pub open spec fn ascii_uppercase(c: char) -> char {
    if 'a' <= c && c <= 'z' {
        (c as u32 - 32) as char
    } else {
        c
    }
}

/// Place of a letter in the alphabet, counted from 0, whatever its case.
pub open spec fn letter_rank(c: char) -> int {
    ascii_uppercase(c) as u32 - 'A' as u32
}

/// The regional-indicator symbol that stands for the letter `c`.
pub open spec fn regional_indicator(c: char) -> char {
    (REGIONAL_INDICATOR_A + letter_rank(c)) as char
}

/// Whether `code` has the shape of a country code: two ASCII letters.
pub open spec fn is_country_code(code: Seq<char>) -> bool {
    &&& code.len() == 2
    &&& is_ascii_letter(code[0])
    &&& is_ascii_letter(code[1])
}

/// The two symbols that make up the flag of `code`.
pub open spec fn flag_symbols(code: Seq<char>) -> Seq<char> {
    seq![regional_indicator(code[0]), regional_indicator(code[1])]
}

/// The flag of `code`, if `code` has the shape of a country code.
pub open spec fn flag_of(code: Seq<char>) -> Option<Seq<char>> {
    if is_country_code(code) {
        Some(flag_symbols(code))
    } else {
        None
    }
}

/// The regional-indicator symbol for `c`, if `c` is an ASCII letter.
pub fn indicator_for(c: char) -> (symbol: Option<char>)
    ensures
        symbol == if is_ascii_letter(c) {
            Some(regional_indicator(c))
        } else {
            None::<char>
        },
{
    let point: u32 = c as u32;
    let rank: u32 = if 'a' <= c && c <= 'z' {
        point - 'a' as u32
    } else if 'A' <= c && c <= 'Z' {
        point - 'A' as u32
    } else {
        return None;
    };
    char::from_u32(REGIONAL_INDICATOR_A + rank)
}

/// Renders the flag of a country code.
///
/// A code of two ASCII letters, in either case, gives its two
/// regional-indicator symbols. Anything else gives `None`: a client
/// without a country is common and no error.
pub fn render_flag(code: &str) -> (flag: Option<String>)
    ensures
        match flag {
            Some(symbols) => flag_of(code@) == Some(symbols@),
            None => flag_of(code@) is None,
        },
        flag is Some <==> is_country_code(code@),
        flag matches Some(symbols) ==> symbols@.len() == 2,
{
    if code.unicode_len() != 2 {
        return None;
    }
    let first = indicator_for(code.get_char(0));
    let second = indicator_for(code.get_char(1));
    match (first, second) {
        (Some(a), Some(b)) => {
            let mut symbols = String::new();
            symbols.push(a);
            symbols.push(b);
            Some(symbols)
        },
        _ => None,
    }
}

/// Whether `c` is one of the 26 regional-indicator symbols.
pub open spec fn is_regional_indicator(c: char) -> bool {
    REGIONAL_INDICATOR_A <= c as u32 && c as u32 <= REGIONAL_INDICATOR_A + 25
}

/// Whether `a` and `b` are the same text but for the case of their ASCII
/// letters.
pub open spec fn same_but_for_case(a: Seq<char>, b: Seq<char>) -> bool {
    &&& a.len() == b.len()
    &&& forall|i: int|
        0 <= i < a.len() ==> ascii_uppercase(#[trigger] a[i]) == ascii_uppercase(b[i])
}

/// Two ASCII letters have a flag, and it is two regional-indicator
/// symbols. A text of another length, or with anything in it that is no
/// ASCII letter, has none.
pub proof fn flag_is_two_symbols_or_none(code: Seq<char>)
    ensures
        is_country_code(code) ==> {
            &&& flag_of(code) matches Some(symbols)
            &&& symbols.len() == 2
            &&& is_regional_indicator(symbols[0])
            &&& is_regional_indicator(symbols[1])
        },
        code.len() != 2 ==> flag_of(code) is None,
        (exists|i: int| 0 <= i < code.len() && !is_ascii_letter(#[trigger] code[i])) ==> flag_of(
            code,
        ) is None,
{
}

/// The flag of a text does not depend on the case of its letters: "us",
/// "US" and "Us" have the same one. And since `flag_of` is a function,
/// the same text always has the same flag.
pub proof fn flag_ignores_case(a: Seq<char>, b: Seq<char>)
    requires
        same_but_for_case(a, b),
    ensures
        flag_of(a) == flag_of(b),
{
    if a.len() == 2 {
        assert(ascii_uppercase(a[0]) == ascii_uppercase(b[0]));
        assert(ascii_uppercase(a[1]) == ascii_uppercase(b[1]));
    }
}

} // verus!
