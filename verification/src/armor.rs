//! Base64 as RFC 4648 has it: the standard alphabet, with padding.

use base64::Engine;
use vstd::prelude::*;

verus! {

/// The symbol of the standard alphabet for a value below 64.
pub open spec fn symbol(v: int) -> char {
    if v < 26 {
        ('A' as u32 + v) as char
    } else if v < 52 {
        ('a' as u32 + v - 26) as char
    } else if v < 62 {
        ('0' as u32 + v - 52) as char
    } else if v == 62 {
        '+'
    } else {
        '/'
    }
}

/// The first symbol for a group of three bytes, read as one big-endian number.
pub open spec fn first_symbol(group: int) -> char {
    symbol(group / 262144)
}

/// The second symbol for a group.
pub open spec fn second_symbol(group: int) -> char {
    symbol(group / 4096 % 64)
}

/// The third symbol for a group.
pub open spec fn third_symbol(group: int) -> char {
    symbol(group / 64 % 64)
}

/// The fourth symbol for a group.
pub open spec fn fourth_symbol(group: int) -> char {
    symbol(group % 64)
}

/// The base64 text of a sequence of bytes. Three bytes make four symbols; a last group of one or
/// two bytes is filled up with zero bits, and its text with `=`.
pub open spec fn base64_text(bytes: Seq<u8>) -> Seq<char>
    decreases bytes.len(),
{
    if bytes.len() == 0 {
        seq![]
    } else if bytes.len() == 1 {
        let group = bytes[0] * 65536;
        seq![first_symbol(group), second_symbol(group), '=', '=']
    } else if bytes.len() == 2 {
        let group = bytes[0] * 65536 + bytes[1] * 256;
        seq![first_symbol(group), second_symbol(group), third_symbol(group), '=']
    } else {
        let group = bytes[0] * 65536 + bytes[1] * 256 + bytes[2];
        seq![
            first_symbol(group),
            second_symbol(group),
            third_symbol(group),
            fourth_symbol(group),
        ] + base64_text(bytes.skip(3))
    }
}

/// Whether a character may stand in base64 text.
pub open spec fn is_base64_character(c: char) -> bool {
    ||| 'A' <= c <= 'Z'
    ||| 'a' <= c <= 'z'
    ||| '0' <= c <= '9'
    ||| c == '+'
    ||| c == '/'
    ||| c == '='
}

/// Whether some sequence of bytes has this text.
pub open spec fn is_base64(text: Seq<char>) -> bool {
    exists|bytes: Seq<u8>| #[trigger] base64_text(bytes) == text
}

/// The bytes that a base64 text stands for; `None` where it is no base64 text.
pub open spec fn base64_bytes(text: Seq<char>) -> Option<Seq<u8>> {
    if is_base64(text) {
        Some(choose|bytes: Seq<u8>| #[trigger] base64_text(bytes) == text)
    } else {
        None
    }
}

/// Whether the base64 text of so many bytes fits into memory.
pub open spec fn encodable(len: nat) -> bool {
    (len + 2) / 3 * 4 <= isize::MAX
}

/// Two values with the same symbol are the same value, and none has the padding for its symbol.
proof fn lemma_symbol_injective(a: int, b: int)
    requires
        0 <= a < 64,
        0 <= b < 64,
        symbol(a) == symbol(b),
    ensures
        a == b,
{
}

proof fn lemma_symbol_not_padding(v: int)
    requires
        0 <= v < 64,
    ensures
        symbol(v) != '=',
{
}

/// A group is told by its four symbols.
proof fn lemma_group_injective(a: int, b: int)
    requires
        0 <= a < 16777216,
        0 <= b < 16777216,
        first_symbol(a) == first_symbol(b),
        second_symbol(a) == second_symbol(b),
        third_symbol(a) == third_symbol(b),
        fourth_symbol(a) == fourth_symbol(b),
    ensures
        a == b,
{
    lemma_symbol_injective(a / 262144, b / 262144);
    lemma_symbol_injective(a / 4096 % 64, b / 4096 % 64);
    lemma_symbol_injective(a / 64 % 64, b / 64 % 64);
    lemma_symbol_injective(a % 64, b % 64);
}

/// The number that the first group of a non-empty sequence makes, missing bytes read as zero.
spec fn leading_group(bytes: Seq<u8>) -> int {
    let second: int = if bytes.len() > 1 {
        bytes[1] as int
    } else {
        0
    };
    let third: int = if bytes.len() > 2 {
        bytes[2] as int
    } else {
        0
    };
    bytes[0] * 65536 + second * 256 + third
}

/// The first four characters of a text that is not empty.
proof fn lemma_leading_symbols(bytes: Seq<u8>)
    requires
        bytes.len() > 0,
    ensures
        0 <= leading_group(bytes) < 16777216,
        base64_text(bytes).len() >= 4,
        base64_text(bytes)[0] == first_symbol(leading_group(bytes)),
        base64_text(bytes)[1] == second_symbol(leading_group(bytes)),
        bytes.len() == 1 ==> base64_text(bytes)[2] == '=' && third_symbol(leading_group(bytes))
            == symbol(0),
        bytes.len() > 1 ==> base64_text(bytes)[2] == third_symbol(leading_group(bytes)),
        bytes.len() > 1 ==> base64_text(bytes)[2] != '=',
        bytes.len() <= 2 ==> base64_text(bytes)[3] == '=' && fourth_symbol(leading_group(bytes))
            == symbol(0),
        bytes.len() > 2 ==> base64_text(bytes)[3] == fourth_symbol(leading_group(bytes)),
        bytes.len() > 2 ==> base64_text(bytes)[3] != '=',
        bytes.len() <= 2 ==> base64_text(bytes).len() == 4,
        bytes.len() > 2 ==> base64_text(bytes).skip(4) == base64_text(bytes.skip(3)),
{
    let group = leading_group(bytes);
    lemma_symbol_not_padding(group / 64 % 64);
    lemma_symbol_not_padding(group % 64);
    if bytes.len() > 2 {
        assert(base64_text(bytes).skip(4) =~= base64_text(bytes.skip(3)));
    }
}

/// Texts that agree in their first four characters come of sequences that agree in their first
/// group, and that both end there or both go on.
proof fn lemma_leading_bytes(a: Seq<u8>, b: Seq<u8>)
    requires
        a.len() > 0,
        b.len() > 0,
        base64_text(a) == base64_text(b),
    ensures
        a.len() <= 2 || b.len() <= 2 ==> a.len() == b.len(),
        a[0] == b[0],
        a.len() >= 2 ==> a[1] == b[1],
        a.len() >= 3 ==> a[2] == b[2],
{
    lemma_leading_symbols(a);
    lemma_leading_symbols(b);
    assert(a.len() == 1 <==> b.len() == 1);
    assert(a.len() <= 2 <==> b.len() <= 2);
    lemma_group_injective(leading_group(a), leading_group(b));
}

/// Base64 loses nothing: two sequences of bytes with the same text are the same sequence.
pub proof fn lemma_base64_injective(a: Seq<u8>, b: Seq<u8>)
    requires
        base64_text(a) == base64_text(b),
    ensures
        a == b,
    decreases a.len(),
{
    if a.len() == 0 || b.len() == 0 {
        if a.len() > 0 {
            lemma_leading_symbols(a);
        }
        if b.len() > 0 {
            lemma_leading_symbols(b);
        }
        assert(a =~= b);
    } else {
        lemma_leading_bytes(a, b);
        if a.len() > 2 {
            lemma_leading_symbols(a);
            lemma_leading_symbols(b);
            lemma_base64_injective(a.skip(3), b.skip(3));
            assert forall|i: int| 3 <= i < a.len() implies a[i] == b[i] by {
                assert(a.skip(3)[i - 3] == b.skip(3)[i - 3]);
            }
            assert(a.skip(3).len() == b.skip(3).len());
        }
        assert(a =~= b);
    }
}

/// The text of a sequence of bytes stands for these bytes.
pub proof fn lemma_base64_round_trip(bytes: Seq<u8>)
    ensures
        base64_bytes(base64_text(bytes)) == Some(bytes),
{
    let text = base64_text(bytes);
    assert(is_base64(text));
    lemma_base64_injective(base64_bytes(text)->0, bytes);
}

/// Base64 text holds letters, digits, `+`, `/` and `=`, and nothing else.
pub proof fn lemma_base64_alphabet(bytes: Seq<u8>)
    ensures
        forall|i: int|
            0 <= i < base64_text(bytes).len() ==> is_base64_character(
                #[trigger] base64_text(bytes)[i],
            ),
    decreases bytes.len(),
{
    if bytes.len() > 2 {
        lemma_base64_alphabet(bytes.skip(3));
        assert forall|i: int| 0 <= i < base64_text(bytes).len() implies is_base64_character(
            #[trigger] base64_text(bytes)[i],
        ) by {
            if i >= 4 {
                assert(base64_text(bytes)[i] == base64_text(bytes.skip(3))[i - 4]);
            }
        }
    }
}

/// Whether the base64 text of `len` bytes fits into memory.
pub fn is_encodable(len: usize) -> (fits: bool)
    ensures
        fits == encodable(len as nat),
{
    len <= usize::MAX - 2 && (len + 2) / 3 <= isize::MAX as usize / 4
}

/// What the decoder of the base64 crate says of a text that it refuses.
pub uninterp spec fn base64_complaint(text: Seq<char>) -> Seq<char>;

/// Calls `encode` of base64's `STANDARD` engine: the result is the base64 text of the bytes. The
/// call panics where that text would not fit into memory.
#[verifier::external_body]
pub(crate) fn encode_base64(bytes: &[u8]) -> (text: String)
    requires
        encodable(bytes@.len()),
    ensures
        text@ == base64_text(bytes@),
{
    base64::engine::general_purpose::STANDARD.encode(bytes)
}

/// Calls `decode` of base64's `STANDARD` engine, which takes exactly the texts that `encode`
/// makes: other symbols, missing or misplaced padding and stray bits in the last symbol are
/// refused. The error is the text that the crate's `DecodeError` displays.
#[verifier::external_body]
pub(crate) fn decode_base64(text: &str) -> (bytes: Result<Vec<u8>, String>)
    ensures
        match bytes {
            Ok(bytes) => base64_text(bytes@) == text@,
            Err(complaint) => !is_base64(text@) && complaint@ == base64_complaint(text@),
        },
{
    base64::engine::general_purpose::STANDARD.decode(text.as_bytes()).map_err(|e| e.to_string())
}

} // verus!
