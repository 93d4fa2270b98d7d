//! Base64 as the `base64` crate writes it.
use base64::Engine;
use vstd::prelude::*;

verus! {

/// The digits of Base64, by their values.
pub open spec fn alphabet() -> Seq<char> {
    "ABCDEFGHIJKLMNOPQRSTUVWXYZabcdefghijklmnopqrstuvwxyz0123456789+/"@
}

/// The number of characters that so many bytes take.
pub open spec fn encoded_len(len: nat) -> nat {
    (len + 2) / 3 * 4
}

/// The byte at the position; zero behind the last one.
pub open spec fn byte_or_zero(bytes: Seq<u8>, i: int) -> int {
    if 0 <= i < bytes.len() {
        bytes[i] as int
    } else {
        0
    }
}

/// The six bits that the character at the position stands for: three bytes make
/// up one number of 24 bits, and four characters stand for it, the highest bits
/// first.
pub open spec fn sextet(bytes: Seq<u8>, i: int) -> int {
    let first = i / 4 * 3;
    let group = byte_or_zero(bytes, first) * 0x10000 + byte_or_zero(bytes, first + 1) * 0x100
        + byte_or_zero(bytes, first + 2);
    if i % 4 == 0 {
        group / 0x40000
    } else if i % 4 == 1 {
        group / 0x1000 % 64
    } else if i % 4 == 2 {
        group / 64 % 64
    } else {
        group % 64
    }
}

/// The bytes in Base64 with the standard alphabet and padding: a digit for each
/// character that stands for a bit of the bytes, and `=` for the rest of the last
/// four.
pub open spec fn encoded(bytes: Seq<u8>) -> Seq<char> {
    Seq::new(
        encoded_len(bytes.len()),
        |i: int|
            if 6 * i < 8 * bytes.len() {
                alphabet()[sextet(bytes, i)]
            } else {
                '='
            },
    )
}

/// `base64::Engine::encode` of `base64::engine::general_purpose::STANDARD`: the
/// bytes in Base64 with the standard alphabet and padding. It panics where the
/// text would be longer than a vector can be, so the contract leaves those bytes
/// out.
#[verifier::external_body]
pub(crate) fn encode(bytes: &[u8]) -> (r: String)
    requires
        encoded_len(bytes@.len()) <= isize::MAX,
    ensures
        r@ == encoded(bytes@),
{
    base64::engine::general_purpose::STANDARD.encode(bytes)
}

/// The digits are the letters in upper and in lower case, the figures, `+` and `/`, in this order.
pub proof fn law_digits(d: int)
    requires
        0 <= d < 64,
    ensures
        alphabet().len() == 64,
        d < 26 ==> alphabet()[d] as int == 'A' as int + d,
        26 <= d < 52 ==> alphabet()[d] as int == 'a' as int + (d - 26),
        52 <= d < 62 ==> alphabet()[d] as int == '0' as int + (d - 52),
        d == 62 ==> alphabet()[d] == '+',
        d == 63 ==> alphabet()[d] == '/',
{
    reveal_strlit("ABCDEFGHIJKLMNOPQRSTUVWXYZabcdefghijklmnopqrstuvwxyz0123456789+/");
}

/// Four characters stand for three bytes: the digits of a full group, taken together, are its
/// bytes, and a text of Base64 ends with one `=` where its last group lacks a byte and with two
/// where it lacks two.
pub proof fn law_four_characters_for_three_bytes(bytes: Seq<u8>, k: int)
    requires
        0 <= k,
        3 * k < bytes.len(),
    ensures
        encoded(bytes).len() % 4 == 0,
        3 * encoded(bytes).len() >= 4 * bytes.len(),
        3 * encoded(bytes).len() < 4 * bytes.len() + 12,
        forall|j: int| 4 * k <= j < 4 * k + 4 ==> 0 <= #[trigger] sextet(bytes, j) < 64,
        sextet(bytes, 4 * k) * 0x40000 + sextet(bytes, 4 * k + 1) * 0x1000 + sextet(
            bytes,
            4 * k + 2,
        ) * 64 + sextet(bytes, 4 * k + 3) == byte_or_zero(bytes, 3 * k) * 0x10000 + byte_or_zero(
            bytes,
            3 * k + 1,
        ) * 0x100 + byte_or_zero(bytes, 3 * k + 2),
        encoded(bytes)[4 * k] == alphabet()[sextet(bytes, 4 * k)],
        encoded(bytes)[4 * k + 1] == alphabet()[sextet(bytes, 4 * k + 1)],
        encoded(bytes)[4 * k + 2] == (if 3 * k + 1 < bytes.len() {
            alphabet()[sextet(bytes, 4 * k + 2)]
        } else {
            '='
        }),
        encoded(bytes)[4 * k + 3] == (if 3 * k + 2 < bytes.len() {
            alphabet()[sextet(bytes, 4 * k + 3)]
        } else {
            '='
        }),
{
    lemma_positions(k);
    lemma_parts_of_a_group(
        byte_or_zero(bytes, 3 * k) * 0x10000 + byte_or_zero(bytes, 3 * k + 1) * 0x100
            + byte_or_zero(bytes, 3 * k + 2),
    );
    lemma_length(bytes.len());
    assert forall|j: int| 4 * k <= j < 4 * k + 4 implies 0 <= #[trigger] sextet(bytes, j) < 64 by {
        assert(j == 4 * k || j == 4 * k + 1 || j == 4 * k + 2 || j == 4 * k + 3);
    }
}

proof fn lemma_positions(k: int)
    requires
        0 <= k,
    ensures
        4 * k / 4 * 3 == 3 * k,
        (4 * k) % 4 == 0,
        (4 * k + 1) / 4 * 3 == 3 * k,
        (4 * k + 1) % 4 == 1,
        (4 * k + 2) / 4 * 3 == 3 * k,
        (4 * k + 2) % 4 == 2,
        (4 * k + 3) / 4 * 3 == 3 * k,
        (4 * k + 3) % 4 == 3,
{
}

proof fn lemma_length(len: nat)
    ensures
        encoded_len(len) % 4 == 0,
        4 * len <= 3 * encoded_len(len) < 4 * len + 12,
{
}

proof fn lemma_parts_of_a_group(group: int)
    requires
        0 <= group < 0x1000000,
    ensures
        0 <= group / 0x40000 < 64,
        0 <= group / 0x1000 % 64 < 64,
        0 <= group / 64 % 64 < 64,
        0 <= group % 64 < 64,
        group / 0x40000 * 0x40000 + group / 0x1000 % 64 * 0x1000 + group / 64 % 64 * 64 + group % 64
            == group,
{
    let low = group / 64;
    let middle = low / 64;
    let high = middle / 64;
    assert(group == 64 * low + group % 64);
    assert(low == 64 * middle + low % 64);
    assert(middle == 64 * high + middle % 64);
    assert(group / 0x1000 == middle);
    assert(group / 0x40000 == high);
}

} // verus!
