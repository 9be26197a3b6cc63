//! Formatting of the hardware unique id into the USB serial-number
//! string: hex-encoded, then uppercased.

use vstd::prelude::*;

verus! {

/// The lowercase hex digit of a nibble (`n < 16`): `'0'..'9'` then
/// `'a'..'f'`, as ASCII bytes.
pub open spec fn hex_digit_lower(n: u8) -> u8
    recommends
        n < 16,
{
    if n < 10 {
        (48 + n) as u8
    } else {
        (87 + n) as u8
    }
}

/// Lowercase hex encoding of a byte sequence: two digits per byte, high
/// nibble first.
pub open spec fn hex_lower(s: Seq<u8>) -> Seq<u8>
    decreases s.len(),
{
    if s.len() == 0 {
        Seq::empty()
    } else {
        hex_lower(s.drop_last()).push(hex_digit_lower(s.last() / 16)).push(
            hex_digit_lower(s.last() % 16),
        )
    }
}

/// ASCII uppercasing of one byte: `'a'..'z'` map to `'A'..'Z'`, all
/// other bytes stay.
pub open spec fn ascii_upper(b: u8) -> u8 {
    if 97 <= b && b <= 122 {
        (b - 32) as u8
    } else {
        b
    }
}

/// ASCII uppercasing of a byte sequence.
pub open spec fn ascii_upper_seq(s: Seq<u8>) -> Seq<u8> {
    s.map_values(|b: u8| ascii_upper(b))
}

/// Relies on hex::encode: one pair of lowercase hex digits per input
/// byte, high nibble first, drawn from the table "0123456789abcdef".
#[verifier::external_body]
fn hex_encode_lower(bytes: &Vec<u8>) -> (r: Vec<u8>)
    ensures
        r@ == hex_lower(bytes@),
{
    hex::encode(bytes.as_slice()).into_bytes()
}

/// Formats a hardware unique id as uppercase hex, the form the device's
/// USB serial-number string descriptor carries.
pub fn serial_number_string(id: &Vec<u8>) -> (r: Vec<u8>)
    ensures
        r@ == ascii_upper_seq(hex_lower(id@)),
{
    let mut out = hex_encode_lower(id);
    let mut i: usize = 0;
    while i < out.len()
        invariant
            i <= out@.len(),
            out@.len() == hex_lower(id@).len(),
            forall|j: int| 0 <= j < i ==> out@[j] == ascii_upper(hex_lower(id@)[j]),
            forall|j: int| i <= j < out@.len() ==> out@[j] == hex_lower(id@)[j],
        decreases out@.len() - i,
    {
        let b = out[i];
        if b >= 97 && b <= 122 {
            out[i] = b - 32;
        }
        i += 1;
    }
    proof {
        assert(out@ =~= ascii_upper_seq(hex_lower(id@)));
    }
    out
}

} // verus!
