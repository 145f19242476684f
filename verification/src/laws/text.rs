//! Laws of decimal numbers and text.

use vstd::prelude::*;

#[allow(unused_imports)]
use crate::text;

verus! {

/// The decimal text of a number is made of decimal digits, is not empty, and
/// starts with a zero only where the number is zero.
pub proof fn lemma_decimal_form(n: nat)
    ensures
        text::decimal(n).len() > 0,
        forall|i: int| 0 <= i < text::decimal(n).len() ==> '0' <= #[trigger] text::decimal(n)[i] <= '9',
        text::decimal(n)[0] == '0' <==> n == 0,
    decreases n,
{
    if n >= 10 {
        lemma_decimal_form(n / 10);
    }
}

/// Digits are read from left to right: one more digit makes ten times the
/// number, plus that digit.
pub proof fn lemma_decimal_value_of_one_more(digits: Seq<char>, digit: char)
    ensures
        text::decimal_value(Seq::<char>::empty()) == 0,
        text::decimal_value(digits.push(digit)) == 10 * text::decimal_value(digits) + (digit as int
            - '0' as int),
{
    assert(digits.push(digit).drop_last() =~= digits);
}

/// An optional string says the text that it holds, and nothing where it holds
/// none.
pub proof fn lemma_optional_text(text: String)
    ensures
        text::optional_text(Some(text)) == Some(text@),
        text::optional_text(None) == None::<Seq<char>>,
{
}

/// A list of strings says the text of each of them, in order.
pub proof fn lemma_texts(list: Seq<String>)
    ensures
        text::texts(list).len() == list.len(),
        forall|i: int| 0 <= i < list.len() ==> #[trigger] text::texts(list)[i] == list[i]@,
{
}

} // verus!
