//! What holds of base64.

use vstd::prelude::*;
use crate::armor::{base64_bytes, base64_text, encodable, is_base64, is_base64_character};
use crate::armor::{is_encodable, lemma_base64_round_trip, symbol};

verus! {

/// The six bits that a symbol of base64 stands for; `-1` for any other character.
#[verifier::opaque]
pub open spec fn symbol_read(c: char) -> int {
    let code = c as u32 as int;
    if 65 <= code <= 90 {
        code - 65
    } else if 97 <= code <= 122 {
        code - 97 + 26
    } else if 48 <= code <= 57 {
        code - 48 + 52
    } else if code == 43 {
        62
    } else if code == 47 {
        63
    } else {
        -1
    }
}

/// The value of a symbol is the value that it was made for.
proof fn lemma_symbol_reads_back(v: int)
    requires
        0 <= v < 64,
    ensures
        symbol_read(symbol(v)) == v,
{
    reveal(symbol_read);
}

/// A number of 24 bits is made of its four groups of six.
proof fn lemma_four_groups(n: int)
    requires
        0 <= n < 16777216,
    ensures
        0 <= n / 262144 < 64,
        0 <= n / 4096 % 64 < 64,
        0 <= n / 64 % 64 < 64,
        0 <= n % 64 < 64,
        (n / 262144) * 262144 + (n / 4096 % 64) * 4096 + (n / 64 % 64) * 64 + n % 64 == n,
{
    assert(n / 4096 == (n / 262144) * 64 + n / 4096 % 64);
    assert(n / 64 == (n / 4096) * 64 + n / 64 % 64);
    assert(n == (n / 64) * 64 + n % 64);
}

/// Four symbols of a text hold three bytes, six bits each, the highest first; the rest of the text
/// is that of the rest of the bytes.
pub proof fn law_base64_whole_group(a: u8, b: u8, c: u8, rest: Seq<u8>)
    ensures
        ({
            let text = base64_text(seq![a, b, c] + rest);
            &&& text.len() == 4 + base64_text(rest).len()
            &&& text.skip(4) == base64_text(rest)
            &&& forall|i: int| 0 <= i < 4 ==> 0 <= symbol_read(#[trigger] text[i]) < 64
            &&& symbol_read(text[0]) * 262144 + symbol_read(text[1]) * 4096 + symbol_read(text[2])
                * 64 + symbol_read(text[3]) == a * 65536 + b * 256 + c
        }),
{
    let bytes = seq![a, b, c] + rest;
    let group = a * 65536 + b * 256 + c;
    assert(bytes.skip(3) =~= rest);
    lemma_four_groups(group);
    lemma_symbol_reads_back(group / 262144);
    lemma_symbol_reads_back(group / 4096 % 64);
    lemma_symbol_reads_back(group / 64 % 64);
    lemma_symbol_reads_back(group % 64);
    assert(bytes[0] == a && bytes[1] == b && bytes[2] == c);
    let text = base64_text(bytes);
    assert(text.skip(4) =~= base64_text(rest));
    assert(text[0] == symbol(group / 262144));
    assert(text[1] == symbol(group / 4096 % 64));
    assert(text[2] == symbol(group / 64 % 64));
    assert(text[3] == symbol(group % 64));
}

/// A last group of one or two bytes is filled up with zero bits, and with `=` in place of the
/// symbols that hold none of its bits. No bytes have no text.
pub proof fn law_base64_last_group(a: u8, b: u8)
    ensures
        base64_text(seq![]).len() == 0,
        ({
            let text = base64_text(seq![a]);
            &&& text.len() == 4
            &&& text[2] == '=' && text[3] == '='
            &&& 0 <= symbol_read(text[0]) && 0 <= symbol_read(text[1])
            &&& symbol_read(text[0]) * 64 + symbol_read(text[1]) == a * 16
        }),
        ({
            let text = base64_text(seq![a, b]);
            &&& text.len() == 4
            &&& text[3] == '='
            &&& 0 <= symbol_read(text[0]) && 0 <= symbol_read(text[1]) && 0 <= symbol_read(text[2])
            &&& symbol_read(text[0]) * 4096 + symbol_read(text[1]) * 64 + symbol_read(text[2]) == (a
                * 256 + b) * 4
        }),
{
    let one = a * 65536;
    lemma_four_groups(one);
    lemma_four_groups(a * 65536 + b * 256);
    lemma_symbol_reads_back(one / 262144);
    lemma_symbol_reads_back(one / 4096 % 64);
    let two = a * 65536 + b * 256;
    lemma_symbol_reads_back(two / 262144);
    lemma_symbol_reads_back(two / 4096 % 64);
    lemma_symbol_reads_back(two / 64 % 64);
}

/// Every three bytes, and a part of three at the end, make four characters; so the text of some
/// bytes fits into memory exactly where their number says so.
pub proof fn law_base64_length(bytes: Seq<u8>)
    ensures
        base64_text(bytes).len() == (bytes.len() + 2) / 3 * 4,
        encodable(bytes.len()) <==> base64_text(bytes).len() <= isize::MAX,
    decreases bytes.len(),
{
    if bytes.len() > 2 {
        law_base64_length(bytes.skip(3));
    }
}

/// Bytes can be encoded exactly where their text fits into memory.
pub proof fn law_what_can_be_encoded(bytes: Seq<u8>, len: usize, fits: bool)
    requires
        call_ensures(is_encodable, (len,), fits),
        bytes.len() == len,
    ensures
        fits <==> base64_text(bytes).len() <= isize::MAX,
{
    law_base64_length(bytes);
}

/// A text stands for exactly the bytes whose text it is, and for none where it is the text of no
/// bytes.
pub proof fn law_base64_decoding_undoes_encoding(text: Seq<char>, bytes: Seq<u8>)
    ensures
        base64_bytes(text) == Some(bytes) <==> base64_text(bytes) == text,
        base64_bytes(text) is None ==> base64_text(bytes) != text,
        is_base64(text) <==> base64_bytes(text) is Some,
{
    if base64_text(bytes) == text {
        lemma_base64_round_trip(bytes);
    }
}

/// A character may stand in base64 text exactly where it holds bits or is padding.
pub proof fn law_base64_characters(c: char)
    ensures
        is_base64_character(c) <==> symbol_read(c) >= 0 || c == '=',
        symbol_read('=') == -1,
{
    reveal(symbol_read);
}

} // verus!
