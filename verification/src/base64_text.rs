//! Base64 text in the standard alphabet.
use vstd::prelude::*;

verus! {

/// What decoding base64 text can fail with.
#[verifier::external_type_specification]
#[verifier::external_body]
pub struct ExDecodeError(base64::DecodeError);

/// The symbol for six bits.
pub open spec fn base64_symbol(bits: int) -> char {
    if bits < 26 {
        ('A' as int + bits) as char
    } else if bits < 52 {
        ('a' as int + bits - 26) as char
    } else if bits < 62 {
        ('0' as int + bits - 52) as char
    } else if bits == 62 {
        '+'
    } else {
        '/'
    }
}

/// The four characters for the first three bytes, or for as many as there are.
pub open spec fn base64_group(bytes: Seq<u8>) -> Seq<char> {
    let a = bytes[0] as int;
    let b = if bytes.len() > 1 { bytes[1] as int } else { 0 };
    let c = if bytes.len() > 2 { bytes[2] as int } else { 0 };
    seq![
        base64_symbol(a / 4),
        base64_symbol(a % 4 * 16 + b / 16),
        if bytes.len() > 1 { base64_symbol(b % 16 * 4 + c / 64) } else { '=' },
        if bytes.len() > 2 { base64_symbol(c % 64) } else { '=' },
    ]
}

/// Bytes as base64 text: three bytes to four symbols, and the last group filled up with `=`.
pub open spec fn base64_text(bytes: Seq<u8>) -> Seq<char>
    decreases bytes.len(),
{
    if bytes.len() == 0 {
        seq![]
    } else if bytes.len() <= 3 {
        base64_group(bytes)
    } else {
        base64_group(bytes) + base64_text(bytes.skip(3))
    }
}

/// How many `=` end the base64 text of `len` bytes.
pub open spec fn base64_padding(len: nat) -> nat {
    if len % 3 == 0 {
        0
    } else {
        (3 - len % 3) as nat
    }
}

/// `text` is the base64 text of `bytes` with `cut` of the `=` at its end left out.
pub open spec fn base64_text_cut(text: Seq<char>, bytes: Seq<u8>, cut: nat) -> bool {
    let full = base64_text(bytes);
    cut <= base64_padding(bytes.len()) && text == full.take(full.len() - cut)
}

/// `text` stands for `bytes`: it is their base64 text, with all of the `=` at its end, or some, or
/// none.
pub open spec fn base64_stands_for(text: Seq<char>, bytes: Seq<u8>) -> bool {
    exists|cut: nat| base64_text_cut(text, bytes, cut)
}

/// The bytes that `text` stands for, where it stands for any.
pub open spec fn base64_bytes(text: Seq<char>) -> Option<Seq<u8>> {
    if exists|bytes: Seq<u8>| base64_stands_for(text, bytes) {
        Some(choose|bytes: Seq<u8>| base64_stands_for(text, bytes))
    } else {
        None
    }
}

/// `base64::decode`: succeeds exactly on the base64 text of some bytes, in the standard alphabet,
/// with the padding whole, cut short or missing, and returns bytes that the text stands for. Padding
/// anywhere else, more of it than the last group takes, a character outside the alphabet, a lone
/// symbol in the last group and leftover bits that are not zero are all refused.
#[verifier::external_body]
pub(crate) fn decode_base64(text: &str) -> (result: Result<Vec<u8>, base64::DecodeError>)
    ensures
        match result {
            Ok(bytes) => base64_stands_for(text@, bytes@),
            Err(_) => forall|bytes: Seq<u8>| !base64_stands_for(text@, bytes),
        },
{
    base64::decode(text)
}

/// `base64::encode`: the base64 text of the bytes, padded. It panics where the text would be too
/// long to allocate, which `requires` leaves out.
#[verifier::external_body]
pub(crate) fn encode_base64(bytes: &[u8]) -> (text: String)
    requires
        (bytes@.len() + 2) / 3 * 4 <= isize::MAX,
    ensures
        text@ == base64_text(bytes@),
{
    base64::encode(bytes)
}

/// Two runs of six bits that have one symbol are equal, and no symbol is `=`.
proof fn lemma_symbol_injective(x: int, y: int)
    requires
        0 <= x < 64,
        0 <= y < 64,
    ensures
        base64_symbol(x) == base64_symbol(y) ==> x == y,
        base64_symbol(x) != '=',
        base64_symbol(y) != '=',
{
}

/// Groups that agree, as far as symbols go, are groups of the same bytes.
proof fn lemma_group_injective(left: Seq<u8>, right: Seq<u8>)
    requires
        left.len() > 0,
        right.len() > 0,
    ensures
        base64_group(left)[0] == base64_group(right)[0] && base64_group(left)[1] == base64_group(
            right,
        )[1] ==> left[0] == right[0],
        base64_group(left)[2] == '=' <==> left.len() == 1,
        base64_group(left)[3] == '=' <==> left.len() <= 2,
        base64_group(right)[2] == '=' <==> right.len() == 1,
        base64_group(right)[3] == '=' <==> right.len() <= 2,
        left.len() > 1 && right.len() > 1 && base64_group(left).take(3) == base64_group(right).take(
            3,
        ) ==> left[1] == right[1],
        left.len() > 2 && right.len() > 2 && base64_group(left) == base64_group(right) ==> left[2]
            == right[2],
{
    let a = left[0] as int;
    let b = if left.len() > 1 { left[1] as int } else { 0 };
    let c = if left.len() > 2 { left[2] as int } else { 0 };
    let x = right[0] as int;
    let y = if right.len() > 1 { right[1] as int } else { 0 };
    let z = if right.len() > 2 { right[2] as int } else { 0 };
    lemma_symbol_injective(a / 4, x / 4);
    lemma_symbol_injective(a % 4 * 16 + b / 16, x % 4 * 16 + y / 16);
    lemma_symbol_injective(b % 16 * 4 + c / 64, y % 16 * 4 + z / 64);
    lemma_symbol_injective(c % 64, z % 64);
    let l = base64_group(left);
    let r = base64_group(right);
    assert(l.take(3)[0] == l[0] && l.take(3)[1] == l[1] && l.take(3)[2] == l[2]);
    assert(r.take(3)[0] == r[0] && r.take(3)[1] == r[1] && r.take(3)[2] == r[2]);
}

/// The length of base64 text.
pub proof fn lemma_base64_text_len(bytes: Seq<u8>)
    ensures
        base64_text(bytes).len() == (bytes.len() + 2) / 3 * 4,
    decreases bytes.len(),
{
    if bytes.len() > 3 {
        lemma_base64_text_len(bytes.skip(3));
    }
}

/// Unambiguity where one side has a single group.
proof fn lemma_short_unambiguous(
    text: Seq<char>,
    left: Seq<u8>,
    m: nat,
    right: Seq<u8>,
    n: nat,
)
    requires
        base64_text_cut(text, left, m),
        base64_text_cut(text, right, n),
        0 < left.len() <= 3,
        right.len() > 0,
    ensures
        left == right,
{
    let l = base64_group(left);
    let r = base64_group(right);
    lemma_base64_text_len(left);
    lemma_base64_text_len(right);
    lemma_group_injective(left, right);
    assert(base64_text(left) == l);
    assert(text.len() == 4 - m);
    assert(right.len() <= 3);
    assert(base64_text(right) == r);
    assert(text.len() == 4 - n);
    assert(m == n);
    assert forall|i: int| 0 <= i < text.len() implies l[i] == r[i] by {
        assert(l[i] == text[i] == r[i]);
    }
    assert(l[0] == r[0] && l[1] == r[1]);
    if text.len() == 2 {
        assert(left.len() == 1 && right.len() == 1);
    } else {
        assert(l[2] == r[2]);
        assert(l.take(3) =~= r.take(3));
        if text.len() == 4 {
            assert(l[3] == r[3]);
            assert(l =~= r);
        }
    }
    assert(left.len() == right.len());
    assert(left =~= right);
}

/// No text stands for two different runs of bytes.
pub proof fn law_base64_unambiguous(text: Seq<char>, left: Seq<u8>, right: Seq<u8>)
    requires
        base64_stands_for(text, left),
        base64_stands_for(text, right),
    ensures
        left == right,
    decreases text.len(),
{
    let m = choose|cut: nat| base64_text_cut(text, left, cut);
    let n = choose|cut: nat| base64_text_cut(text, right, cut);
    lemma_base64_text_len(left);
    lemma_base64_text_len(right);
    if left.len() == 0 || right.len() == 0 {
        assert(text.len() == 0);
        assert(left =~= right);
    } else if left.len() <= 3 {
        lemma_short_unambiguous(text, left, m, right, n);
    } else if right.len() <= 3 {
        lemma_short_unambiguous(text, right, n, left, m);
    } else {
        lemma_group_injective(left, right);
        let l = base64_text(left.skip(3));
        let r = base64_text(right.skip(3));
        lemma_base64_text_len(left.skip(3));
        lemma_base64_text_len(right.skip(3));
        let rest = text.skip(4);
        assert(base64_text_cut(rest, left.skip(3), m)) by {
            assert(rest =~= l.take(l.len() - m));
        }
        assert(base64_text_cut(rest, right.skip(3), n)) by {
            assert(rest =~= r.take(r.len() - n));
        }
        law_base64_unambiguous(rest, left.skip(3), right.skip(3));
        assert(text.take(4) =~= base64_group(left));
        assert(text.take(4) =~= base64_group(right));
        assert(base64_group(left).take(3) == base64_group(right).take(3));
        assert(left =~= left.take(3) + left.skip(3));
        assert(right =~= right.take(3) + right.skip(3));
        assert(left.take(3) =~= right.take(3));
    }
}

/// The base64 text of any bytes, padded in full or less, stands for those bytes.
pub proof fn law_base64_round_trip(bytes: Seq<u8>, cut: nat)
    requires
        cut <= base64_padding(bytes.len()),
    ensures
        base64_bytes(base64_text(bytes).take(base64_text(bytes).len() - cut)) == Some(bytes),
{
    let text = base64_text(bytes).take(base64_text(bytes).len() - cut);
    assert(base64_text_cut(text, bytes, cut));
    assert(base64_stands_for(text, bytes));
    law_base64_unambiguous(text, bytes, base64_bytes(text)->0);
}

} // verus!
