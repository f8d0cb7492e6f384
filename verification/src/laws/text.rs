//! What holds of numbers in decimal, of searching and of lowercase.

use vstd::prelude::*;
use vstd::utf8::is_ascii_chars;
use crate::text::{contains, contains_text, decimal, decimal_text, joined, lowercase_text};
use crate::text::{signed_decimal, signed_decimal_text, unicode_lowercase};

verus! {

/// The number that a text of decimal digits stands for.
pub open spec fn number_read(text: Seq<char>) -> int
    decreases text.len(),
{
    if text.len() == 0 {
        0
    } else {
        10 * number_read(text.drop_last()) + (text.last() as u32 - '0' as u32)
    }
}

/// A number in decimal is made of digits alone, begins with a zero only where it is zero, and reads
/// as the number.
pub proof fn law_decimal_reads_back(n: nat)
    ensures
        decimal(n).len() >= 1,
        forall|i: int| 0 <= i < decimal(n).len() ==> '0' <= #[trigger] decimal(n)[i] <= '9',
        decimal(n)[0] == '0' ==> n == 0 && decimal(n).len() == 1,
        number_read(decimal(n)) == n,
    decreases n,
{
    if n < 10 {
        let text = decimal(n);
        assert(text.drop_last() =~= Seq::<char>::empty());
        assert(number_read(text.drop_last()) == 0);
    } else {
        law_decimal_reads_back(n / 10);
        let text = decimal(n);
        assert(text.drop_last() =~= decimal(n / 10));
        assert(text[0] == decimal(n / 10)[0]);
        assert forall|i: int| 0 <= i < text.len() implies '0' <= #[trigger] text[i] <= '9' by {
            if i < text.len() - 1 {
                assert(text[i] == decimal(n / 10)[i]);
            }
        }
    }
}

/// Different numbers have different texts.
pub proof fn law_decimal_tells_apart(a: nat, b: nat)
    requires
        decimal(a) == decimal(b),
    ensures
        a == b,
{
    law_decimal_reads_back(a);
    law_decimal_reads_back(b);
}

/// A number below zero has a minus sign before its magnitude, and no other number has a sign.
pub proof fn law_signed_decimal(n: int)
    ensures
        n >= 0 ==> '0' <= signed_decimal(n)[0] <= '9' && number_read(signed_decimal(n)) == n,
        n < 0 ==> signed_decimal(n).len() >= 2 && signed_decimal(n)[0] == '-' && '1'
            <= signed_decimal(n)[1] <= '9' && number_read(signed_decimal(n).skip(1)) == -n,
{
    if n >= 0 {
        law_decimal_reads_back(n as nat);
    } else {
        law_decimal_reads_back((-n) as nat);
        assert(signed_decimal(n).skip(1) =~= decimal((-n) as nat));
        assert(signed_decimal(n)[1] == decimal((-n) as nat)[0]);
    }
}

/// What is put between two texts is found there.
pub proof fn law_what_is_put_in_is_found(before: Seq<char>, needle: Seq<char>, after: Seq<char>)
    ensures
        contains_text(before + needle + after, needle),
{
    let text = before + needle + after;
    let start = before.len() as int;
    assert(text.subrange(start, start + needle.len()) =~= needle);
}

/// What is found in a text divides it into what stands before and what stands after.
pub proof fn law_what_is_found_is_there(text: Seq<char>, needle: Seq<char>)
    requires
        contains_text(text, needle),
    ensures
        exists|before: Seq<char>, after: Seq<char>| text == #[trigger] (before + needle
            + after),
{
    let start = choose|start: int|
        0 <= start <= text.len() - needle.len() && #[trigger] text.subrange(
            start,
            start + needle.len(),
        ) == needle;
    let before = text.take(start);
    let after = text.skip(start + needle.len());
    assert(text =~= before + needle + after) by {
        assert forall|i: int| 0 <= i < text.len() implies text[i] == (before + needle
            + after)[i] by {
            if start <= i < start + needle.len() {
                assert(text.subrange(start, start + needle.len())[i - start] == text[i]);
            }
        }
    }
}

/// A text is found in another exactly where it divides it.
pub proof fn law_finding(text: &str, needle: &str, found: bool)
    requires
        call_ensures(contains, (text, needle), found),
    ensures
        found <==> exists|before: Seq<char>, after: Seq<char>|
            text@ == #[trigger] (before + needle@ + after),
{
    if found {
        law_what_is_found_is_there(text@, needle@);
    }
    assert forall|before: Seq<char>, after: Seq<char>|
        text@ == #[trigger] (before + needle@ + after) implies found by {
        law_what_is_put_in_is_found(before, needle@, after);
    }
}

/// The text of a number is made of digits alone and reads as the number, after a minus sign where
/// the number is below zero.
pub proof fn law_numbers_are_written_as_they_read(
    n: u64,
    text: String,
    signed: i32,
    signed_text: String,
)
    requires
        call_ensures(decimal_text, (n,), text),
        call_ensures(signed_decimal_text, (signed,), signed_text),
    ensures
        number_read(text@) == n,
        forall|i: int| 0 <= i < text@.len() ==> '0' <= #[trigger] text@[i] <= '9',
        text@.len() > 0 && (text@[0] == '0' ==> n == 0),
        signed >= 0 ==> number_read(signed_text@) == signed,
        signed < 0 ==> signed_text@[0] == '-' && number_read(signed_text@.skip(1)) == -signed,
{
    law_decimal_reads_back(n as nat);
    law_signed_decimal(signed as int);
}

/// Joined texts stand one after the other, and nothing stands between or around them.
pub proof fn law_joining(head: &str, tail: &str, text: String)
    requires
        call_ensures(joined, (head, tail), text),
    ensures
        text@.len() == head@.len() + tail@.len(),
        text@.take(head@.len() as int) == head@,
        text@.skip(head@.len() as int) == tail@,
{
    assert(text@.take(head@.len() as int) =~= head@);
    assert(text@.skip(head@.len() as int) =~= tail@);
}

/// In ASCII text the lowercase form of a letter is the letter 32 places on, every other character
/// stays, and nothing is lost or added. Other text is lowered as the standard library does it.
pub proof fn law_lowercase(text: Seq<char>)
    ensures
        is_ascii_chars(text) ==> lowercase_text(text).len() == text.len(),
        forall|i: int|
            is_ascii_chars(text) && 0 <= i < text.len() ==> {
                let lower = #[trigger] lowercase_text(text)[i];
                if 65 <= text[i] as u32 && text[i] as u32 <= 90 {
                    lower as u32 == text[i] as u32 + 32
                } else {
                    lower == text[i]
                }
            },
        !is_ascii_chars(text) ==> lowercase_text(text) == unicode_lowercase(text),
{
}

/// Lowercase ASCII text has no capital letter, and lowering it again changes nothing.
pub proof fn law_lowercase_is_lasting(text: Seq<char>)
    requires
        is_ascii_chars(text),
    ensures
        forall|i: int|
            0 <= i < text.len() ==> !('A' <= #[trigger] lowercase_text(text)[i] <= 'Z'),
        lowercase_text(lowercase_text(text)) == lowercase_text(text),
{
    let lower = lowercase_text(text);
    assert(is_ascii_chars(lower)) by {
        assert forall|i: int| 0 <= i < lower.len() implies '\0' <= #[trigger] lower[i]
            <= '\u{7f}' by {
            assert('\0' <= text[i] <= '\u{7f}');
        }
    }
    assert(lowercase_text(lower) =~= lower);
}

} // verus!
