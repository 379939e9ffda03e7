use vstd::prelude::*;

verus! {

/// The value of one hexadecimal digit, either case.
pub open spec fn hex_digit_value(c: char) -> Option<nat> {
    let v = c as u32;
    if 48 <= v && v <= 57 {
        Some((v - 48) as nat)
    } else if 97 <= v && v <= 102 {
        Some((v - 87) as nat)
    } else if 65 <= v && v <= 70 {
        Some((v - 55) as nat)
    } else {
        None
    }
}

/// The lowercase digit for a value below sixteen.
pub open spec fn lower_hex_digit(n: nat) -> char {
    seq!['0', '1', '2', '3', '4', '5', '6', '7', '8', '9', 'a', 'b', 'c', 'd', 'e', 'f'][n as int]
}

/// Lowercase hexadecimal text of a byte string, two digits per byte.
pub open spec fn hex_of(b: Seq<u8>) -> Seq<char>
    decreases b.len(),
{
    if b.len() == 0 {
        seq![]
    } else {
        seq![lower_hex_digit(b[0] as nat / 16), lower_hex_digit(b[0] as nat % 16)] + hex_of(
            b.drop_first(),
        )
    }
}

/// Encoding gives two digits per byte.
pub proof fn lemma_hex_of_len(b: Seq<u8>)
    ensures
        hex_of(b).len() == 2 * b.len(),
    decreases b.len(),
{
    if b.len() > 0 {
        lemma_hex_of_len(b.drop_first());
    }
}

/// Text that decodes: an even number of characters, each a hexadecimal digit.
pub open spec fn hex_decodable(s: Seq<char>) -> bool {
    &&& s.len() % 2 == 0
    &&& forall|i: int| 0 <= i < s.len() ==> (#[trigger] hex_digit_value(s[i])) is Some
}

/// The bytes that hexadecimal text stands for, one per pair of digits.
pub open spec fn bytes_of_hex(s: Seq<char>) -> Seq<u8>
    decreases s.len(),
{
    if s.len() < 2 {
        seq![]
    } else {
        seq![
            (hex_digit_value(s[0])->0 * 16 + hex_digit_value(s[1])->0) as u8,
        ] + bytes_of_hex(s.subrange(2, s.len() as int))
    }
}

/// Each lowercase digit reads back as its value.
pub proof fn lemma_lower_hex_digit(n: nat)
    requires
        n < 16,
    ensures
        hex_digit_value(lower_hex_digit(n)) == Some(n),
{
    let digits = seq!['0', '1', '2', '3', '4', '5', '6', '7', '8', '9', 'a', 'b', 'c', 'd', 'e', 'f'];
    assert(lower_hex_digit(n) == digits[n as int]);
    assert(digits[0] == '0' && digits[1] == '1' && digits[2] == '2' && digits[3] == '3');
    assert(digits[4] == '4' && digits[5] == '5' && digits[6] == '6' && digits[7] == '7');
    assert(digits[8] == '8' && digits[9] == '9' && digits[10] == 'a' && digits[11] == 'b');
    assert(digits[12] == 'c' && digits[13] == 'd' && digits[14] == 'e' && digits[15] == 'f');
}

/// Encoding then decoding gives the bytes back.
pub proof fn lemma_hex_round_trip(b: Seq<u8>)
    ensures
        hex_decodable(hex_of(b)),
        bytes_of_hex(hex_of(b)) == b,
    decreases b.len(),
{
    lemma_hex_of_len(b);
    if b.len() > 0 {
        let rest = b.drop_first();
        lemma_hex_round_trip(rest);
        let hi = b[0] as nat / 16;
        let lo = b[0] as nat % 16;
        lemma_lower_hex_digit(hi);
        lemma_lower_hex_digit(lo);
        let s = hex_of(b);
        assert(s.subrange(2, s.len() as int) =~= hex_of(rest));
        assert forall|i: int| 0 <= i < s.len() implies (#[trigger] hex_digit_value(s[i])) is Some by {
            if i >= 2 {
                assert(s[i] == hex_of(rest)[i - 2]);
            }
        }
        assert(bytes_of_hex(s) =~= b);
    }
}

/// Relies on hex::encode: lowercase digits, high nibble first, for every byte.
#[verifier::external_body]
pub(crate) fn encode_hex(b: &[u8]) -> (r: String)
    ensures
        r@ == hex_of(b@),
{
    hex::encode(b)
}

/// Relies on hex::decode: fails on odd length or on a non-digit, else gives
/// one byte per pair of digits of either case.
#[verifier::external_body]
pub(crate) fn decode_hex(s: &str) -> (r: Option<Vec<u8>>)
    ensures
        r is Some <==> hex_decodable(s@),
        r matches Some(v) ==> v@ == bytes_of_hex(s@),
{
    hex::decode(s).ok()
}

} // verus!
