//! Keys as operators write them: hexadecimal or base64, with white space around them.
use vstd::prelude::*;

use crate::base64_text;
use crate::base64_text::decode_base64;
use crate::hex_text;
use crate::hex_text::decode_hex;

verus! {

/// Text that is neither the hexadecimal nor the base64 form of the bytes asked for.
#[derive(Clone, Copy, Debug, PartialEq, Eq, Structural)]
pub struct InvalidData;

impl InvalidData {
    /// What is told to the operator.
    pub fn message(&self) -> (text: &'static str)
        ensures
            text@ == "Invalid data"@,
    {
        "Invalid data"
    }
}

/// The characters that Unicode gives the property `White_Space`.
pub open spec fn is_white_space(c: char) -> bool {
    let code = c as int;
    ||| 0x9 <= code <= 0xd
    ||| code == 0x20
    ||| code == 0x85
    ||| code == 0xa0
    ||| code == 0x1680
    ||| 0x2000 <= code <= 0x200a
    ||| code == 0x2028
    ||| code == 0x2029
    ||| code == 0x202f
    ||| code == 0x205f
    ||| code == 0x3000
}

/// Text without the white space at its two ends.
pub open spec fn trimmed(text: Seq<char>) -> Seq<char>
    decreases text.len(),
{
    if text.len() == 0 {
        text
    } else if is_white_space(text[0]) {
        trimmed(text.skip(1))
    } else if is_white_space(text.last()) {
        trimmed(text.drop_last())
    } else {
        text
    }
}

/// `str::trim`: the text without the white space, as Unicode defines it, at its two ends.
pub assume_specification[ str::trim ](text: &str) -> (result: &str)
    ensures
        result@ == trimmed(text@),
;

/// The `len` bytes that `text` stands for. Hexadecimal text of that many bytes is read as such;
/// anything else is tried as base64.
pub open spec fn hex_or_base64_bytes(text: Seq<char>, len: nat) -> Option<Seq<u8>> {
    let hex = hex_text::hex_bytes(text);
    let base64 = base64_text::base64_bytes(text);
    if hex is Some && hex->0.len() == len {
        hex
    } else if base64 is Some && base64->0.len() == len {
        base64
    } else {
        None
    }
}

/// Copies bytes into an array of the same length.
fn to_array<const N: usize>(bytes: &Vec<u8>) -> (array: [u8; N])
    requires
        bytes@.len() == N,
    ensures
        array@ == bytes@,
{
    let mut array: [u8; N] = [0u8; N];
    let mut i: usize = 0;
    while i < N
        invariant
            i <= N,
            bytes@.len() == N,
            forall|j: int| 0 <= j < i ==> array@[j] == bytes@[j],
        decreases N - i,
    {
        array[i] = bytes[i];
        i += 1;
    }
    assert(array@ =~= bytes@);
    array
}

/// Reads `N` bytes from hexadecimal or base64 text.
pub fn hex_or_base64<const N: usize>(data: &str) -> (result: Result<[u8; N], InvalidData>)
    ensures
        match result {
            Ok(bytes) => hex_or_base64_bytes(data@, N as nat) == Some(bytes@),
            Err(_) => hex_or_base64_bytes(data@, N as nat) is None,
        },
{
    let hex = decode_hex(data);
    if let Ok(bytes) = hex {
        if bytes.len() == N {
            return Ok(to_array(&bytes));
        }
    }
    match decode_base64(data) {
        Ok(bytes) => {
            proof {
                base64_text::law_base64_unambiguous(
                    data@,
                    bytes@,
                    base64_text::base64_bytes(data@)->0,
                );
            }
            if bytes.len() == N {
                Ok(to_array(&bytes))
            } else {
                Err(InvalidData)
            }
        },
        Err(_) => Err(InvalidData),
    }
}

/// Any bytes are read back from their hexadecimal text.
pub proof fn law_hex_is_read(bytes: Seq<u8>)
    ensures
        hex_or_base64_bytes(hex_text::hex_text(bytes), bytes.len()) == Some(bytes),
{
    hex_text::law_hex_round_trip(bytes);
}

/// Base64 text, padded or not, that is also the hexadecimal text of as many bytes as it stands for
/// in base64, stands for none or for one.
proof fn lemma_hex_seldom_wins(text: Seq<char>, bytes: Seq<u8>, cut: nat)
    requires
        base64_text::base64_text_cut(text, bytes, cut),
        hex_text::hex_bytes(text) is Some,
        hex_text::hex_bytes(text)->0.len() == bytes.len(),
    ensures
        bytes.len() == 0 || (bytes.len() == 1 && cut == 2),
{
    base64_text::lemma_base64_text_len(bytes);
    let full = base64_text::base64_text(bytes);
    assert(text.len() == (bytes.len() + 2) / 3 * 4 - cut);
    assert(text.len() == 2 * bytes.len());
    if bytes.len() == 2 {
        assert(text[3] == full[3] == '=');
    } else if bytes.len() == 4 {
        let last = bytes.skip(3);
        assert(base64_text::base64_text(last)[3] == '=');
        assert(text[7] == full[7] == '=');
    }
}

/// Any bytes are read back from their padded base64 text.
pub proof fn law_base64_is_read(bytes: Seq<u8>)
    ensures
        hex_or_base64_bytes(base64_text::base64_text(bytes), bytes.len()) == Some(bytes),
{
    let text = base64_text::base64_text(bytes);
    assert(text.take(text.len() as int) =~= text);
    base64_text::law_base64_round_trip(bytes, 0);
    let hex = hex_text::hex_bytes(text);
    if hex is Some && hex->0.len() == bytes.len() {
        lemma_hex_seldom_wins(text, bytes, 0);
        assert(hex->0 =~= bytes);
    }
}

/// Any bytes are read back from base64 text that lacks some or all of its padding, but for a single
/// byte, whose two symbols may also be two hexadecimal digits.
pub proof fn law_unpadded_base64_is_read(text: Seq<char>, bytes: Seq<u8>)
    requires
        base64_text::base64_stands_for(text, bytes),
        bytes.len() != 1,
    ensures
        hex_or_base64_bytes(text, bytes.len()) == Some(bytes),
{
    let cut = choose|cut: nat| base64_text::base64_text_cut(text, bytes, cut);
    base64_text::law_base64_round_trip(bytes, cut);
    let hex = hex_text::hex_bytes(text);
    if hex is Some && hex->0.len() == bytes.len() {
        lemma_hex_seldom_wins(text, bytes, cut);
        assert(hex->0 =~= bytes);
    }
}

/// Text that is nothing but white space, or empty.
pub open spec fn all_white_space(text: Seq<char>) -> bool {
    forall|i: int| 0 <= i < text.len() ==> is_white_space(#[trigger] text[i])
}

/// White space around a text that has none at its ends is taken off, and nothing else.
pub proof fn law_trimmed(before: Seq<char>, text: Seq<char>, after: Seq<char>)
    requires
        all_white_space(before),
        all_white_space(after),
        text.len() > 0,
        !is_white_space(text[0]),
        !is_white_space(text.last()),
    ensures
        trimmed(before + text + after) == text,
    decreases before.len() + after.len(),
{
    let whole = before + text + after;
    if before.len() > 0 {
        assert(whole[0] == before[0]);
        assert(whole.skip(1) =~= before.skip(1) + text + after);
        law_trimmed(before.skip(1), text, after);
    } else if after.len() > 0 {
        assert(whole[0] == text[0]);
        assert(whole.last() == after.last());
        assert(whole.drop_last() =~= before + text + after.drop_last());
        law_trimmed(before, text, after.drop_last());
    } else {
        assert(whole =~= text);
    }
}

/// No white space stands in base64 text.
proof fn lemma_base64_text_is_solid(bytes: Seq<u8>)
    ensures
        forall|i: int|
            0 <= i < base64_text::base64_text(bytes).len() ==> !is_white_space(
                #[trigger] base64_text::base64_text(bytes)[i],
            ),
    decreases bytes.len(),
{
    if bytes.len() > 3 {
        let rest = base64_text::base64_text(bytes.skip(3));
        lemma_base64_text_is_solid(bytes.skip(3));
        assert forall|i: int| 0 <= i < base64_text::base64_text(bytes).len() implies !is_white_space(
            #[trigger] base64_text::base64_text(bytes)[i],
        ) by {
            if i >= 4 {
                assert(base64_text::base64_text(bytes)[i] == rest[i - 4]);
            }
        }
    }
}

/// Bytes in hexadecimal are read back with white space around them too.
pub proof fn law_hex_is_read_trimmed(
    before: Seq<char>,
    text: Seq<char>,
    after: Seq<char>,
    bytes: Seq<u8>,
)
    requires
        all_white_space(before),
        all_white_space(after),
        hex_text::hex_bytes(text) == Some(bytes),
        bytes.len() > 0,
    ensures
        hex_or_base64_bytes(trimmed(before + text + after), bytes.len()) == Some(bytes),
{
    assert(hex_text::hex_value(text[0]) is Some);
    assert(hex_text::hex_value(text[text.len() - 1]) is Some);
    law_trimmed(before, text, after);
}

/// Bytes in base64, padded or not, are read back with white space around them too, but for a single
/// byte, whose two symbols may also be two hexadecimal digits.
pub proof fn law_base64_is_read_trimmed(
    before: Seq<char>,
    text: Seq<char>,
    after: Seq<char>,
    bytes: Seq<u8>,
)
    requires
        all_white_space(before),
        all_white_space(after),
        base64_text::base64_stands_for(text, bytes),
        bytes.len() > 1,
    ensures
        hex_or_base64_bytes(trimmed(before + text + after), bytes.len()) == Some(bytes),
{
    let cut = choose|cut: nat| base64_text::base64_text_cut(text, bytes, cut);
    let full = base64_text::base64_text(bytes);
    base64_text::lemma_base64_text_len(bytes);
    lemma_base64_text_is_solid(bytes);
    assert(text[0] == full[0]);
    assert(text.last() == full[text.len() - 1]);
    law_trimmed(before, text, after);
    law_unpadded_base64_is_read(text, bytes);
}

/// Bytes are read from a text exactly where it is their hexadecimal text, of either case, or stands
/// for them in base64 and is not the hexadecimal text of as many bytes. So text that stands for some
/// other number of bytes both ways, or for none, is refused.
pub proof fn law_what_is_read_is_written(text: Seq<char>, len: nat, bytes: Seq<u8>)
    ensures
        hex_or_base64_bytes(text, len) == Some(bytes) <==> bytes.len() == len && (
        hex_text::hex_bytes(text) == Some(bytes) || (base64_text::base64_stands_for(text, bytes) && (
        forall|other: Seq<u8>| #[trigger]
            other.len() == len ==> hex_text::hex_bytes(text) != Some(other)))),
{
    let hex = hex_text::hex_bytes(text);
    let base64 = base64_text::base64_bytes(text);
    if base64_text::base64_stands_for(text, bytes) {
        base64_text::law_base64_unambiguous(text, bytes, base64->0);
    }
    if hex is Some && hex->0.len() == len {
        let other = hex->0;
        assert(other.len() == len);
    }
}

/// Text that stands for no such number of bytes, in hexadecimal or base64, is refused.
pub proof fn law_other_lengths_are_refused(text: Seq<char>, len: nat)
    requires
        forall|bytes: Seq<u8>|
            hex_text::hex_bytes(text) == Some(bytes) || #[trigger] base64_text::base64_stands_for(
                text,
                bytes,
            ) ==> bytes.len() != len,
    ensures
        hex_or_base64_bytes(text, len) is None,
{
    if let Some(bytes) = hex_or_base64_bytes(text, len) {
        law_what_is_read_is_written(text, len, bytes);
        let in_base64 = base64_text::base64_stands_for(text, bytes);
        assert(in_base64 || hex_text::hex_bytes(text) == Some(bytes));
    }
}

/// What is left of a text has no white space at its ends, and only white space was taken off.
pub proof fn law_only_white_space_is_trimmed(text: Seq<char>) -> (ends: (Seq<char>, Seq<char>))
    ensures
        all_white_space(ends.0),
        all_white_space(ends.1),
        text == ends.0 + trimmed(text) + ends.1,
        trimmed(text).len() > 0 ==> !is_white_space(trimmed(text)[0]) && !is_white_space(
            trimmed(text).last(),
        ),
    decreases text.len(),
{
    if text.len() == 0 {
        assert(text =~= text + trimmed(text) + text);
        (text, text)
    } else if is_white_space(text[0]) {
        let ends = law_only_white_space_is_trimmed(text.skip(1));
        let before = seq![text[0]] + ends.0;
        assert(text =~= seq![text[0]] + text.skip(1));
        assert(text =~= before + trimmed(text) + ends.1);
        (before, ends.1)
    } else if is_white_space(text.last()) {
        let ends = law_only_white_space_is_trimmed(text.drop_last());
        let after = ends.1.push(text.last());
        assert(text =~= text.drop_last().push(text.last()));
        assert(text =~= ends.0 + trimmed(text) + after);
        (ends.0, after)
    } else {
        let none = Seq::<char>::empty();
        assert(text =~= none + trimmed(text) + none);
        (none, none)
    }
}

} // verus!
