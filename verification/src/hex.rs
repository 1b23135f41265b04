//! Lowercase hexadecimal encoding of opaque byte fields.

use crate::text::hex_digit;
use hex_conservative::DisplayHex;
use vstd::prelude::*;

verus! {

/// The lowercase hex text of a byte sequence: two digits per byte, high
/// nibble first, in input order, with no prefix or separators.
pub open spec fn hex_of(bs: Seq<u8>) -> Seq<char>
    decreases bs.len(),
{
    if bs.len() == 0 {
        Seq::empty()
    } else {
        seq![hex_digit((bs[0] >> 4) as nat), hex_digit((bs[0] & 0x0f) as nat)] + hex_of(
            bs.drop_first(),
        )
    }
}

/// A lowercase hexadecimal digit character.
pub open spec fn is_hex_char(c: char) -> bool {
    ||| c == '0'
    ||| c == '1'
    ||| c == '2'
    ||| c == '3'
    ||| c == '4'
    ||| c == '5'
    ||| c == '6'
    ||| c == '7'
    ||| c == '8'
    ||| c == '9'
    ||| c == 'a'
    ||| c == 'b'
    ||| c == 'c'
    ||| c == 'd'
    ||| c == 'e'
    ||| c == 'f'
}

/// Hex encoding yields exactly two characters per input byte, each of them
/// a lowercase hexadecimal digit.
pub proof fn lemma_hex_of_shape(bs: Seq<u8>)
    ensures
        hex_of(bs).len() == 2 * bs.len(),
        forall|i: int| 0 <= i < hex_of(bs).len() ==> is_hex_char(#[trigger] hex_of(bs)[i]),
    decreases bs.len(),
{
    if bs.len() == 0 {
    } else {
        lemma_hex_of_shape(bs.drop_first());
        let rest = hex_of(bs.drop_first());
        assert forall|i: int| 0 <= i < hex_of(bs).len() implies is_hex_char(
            #[trigger] hex_of(bs)[i],
        ) by {
            if i >= 2 {
                assert(hex_of(bs)[i] == rest[i - 2]);
            }
        }
    }
}

/// Relies on `hex_conservative::DisplayHex::to_lower_hex_string` for byte
/// slices: it writes each byte as two lowercase hex digits from the table
/// `0123456789abcdef`, high nibble first, in input order, with no prefix
/// and no separators.
#[verifier::external_body]
pub(crate) fn bytes_to_lower_hex(bytes: &Vec<u8>) -> (r: String)
    ensures
        r@ == hex_of(bytes@),
{
    bytes.as_slice().to_lower_hex_string()
}

} // verus!
