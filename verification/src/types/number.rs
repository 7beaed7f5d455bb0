//! Reading a list index from the text of a query parameter.

use vstd::prelude::*;

verus! {

/// Whether `c` is one of the ten ASCII digits.
pub open spec fn is_digit(c: char) -> bool {
    '0' as u32 <= c as u32 && c as u32 <= '9' as u32
}

/// The number that the digit `c` stands for.
pub open spec fn digit_value(c: char) -> nat {
    (c as u32 - '0' as u32) as nat
}

/// The text without its optional leading plus sign.
pub open spec fn unsigned_part(text: Seq<char>) -> Seq<char> {
    if text.len() > 0 && text[0] == '+' {
        text.subrange(1, text.len() as int)
    } else {
        text
    }
}

/// The number that a run of digits denotes in base ten.
pub open spec fn decimal_value(digits: Seq<char>) -> nat
    decreases digits.len(),
{
    if digits.len() == 0 {
        0
    } else {
        10 * decimal_value(digits.drop_last()) + digit_value(digits.last())
    }
}

/// Whether `text` denotes an index: an optional plus sign, then at least one
/// digit and nothing but digits, with a value that the machine's index type
/// can hold.
pub open spec fn is_index_text(text: Seq<char>) -> bool {
    let digits = unsigned_part(text);
    &&& digits.len() > 0
    &&& forall|i: int| 0 <= i < digits.len() ==> is_digit(#[trigger] digits[i])
    &&& decimal_value(digits) <= usize::MAX
}

/// The index that `text` denotes, where it denotes one.
pub open spec fn index_value(text: Seq<char>) -> nat {
    decimal_value(unsigned_part(text))
}

/// The words in which the standard library's integer parser refuses `text`.
pub uninterp spec fn parse_failure_detail(text: Seq<char>) -> Seq<char>;

/// Calls the standard library's `str::parse::<usize>`. Trusted, as the
/// documentation of `usize::from_str` has it: the parser accepts an optional
/// plus sign followed by decimal digits only, refuses the empty text, any
/// other character and a value too large for `usize`, and returns the value
/// denoted. On refusal the error is rendered by its `Display` impl; which
/// words that gives depends on the text alone.
#[verifier::external_body]
pub(crate) fn parse_index(text: &str) -> (res: Result<usize, String>)
    ensures
        res is Ok <==> is_index_text(text@),
        res matches Ok(value) ==> value == index_value(text@),
        res matches Err(detail) ==> detail@ == parse_failure_detail(text@),
{
    match text.parse::<usize>() {
        Ok(value) => Ok(value),
        Err(e) => Err(e.to_string()),
    }
}

} // verus!
