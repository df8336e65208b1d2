//! The variable-length byte form of signed integers: as that of natural
//! numbers, but the first byte gives one of its seven bits to the sign and
//! so carries only six bits of the magnitude.

use crate::bigint::and_with;
use crate::bigint::biguint_value;
use crate::bigint::equal;
use crate::bigint::from_u8;
use crate::bigint::shift_left;
use crate::bigint::shift_right;
use crate::bigint::sum;
use crate::bigint::to_u8;
use crate::bigint::zero;
use crate::bigint::bit_and;
use crate::consumable_list::consume_at;
use crate::error::Error;
use crate::micheline::Integer;
use crate::natural::decode_natural;
use crate::natural::encode_natural;
use crate::natural::encoded_len;
use crate::natural::lemma_encoded_len_bound;
use crate::natural::Natural;
use crate::natural::NaturalBytesCoder;
use num_bigint::BigUint;
use vstd::arithmetic::power2::lemma2_to64;
use vstd::prelude::*;

verus! {

/// The bytes of an integer. The first byte holds the low six bits of the
/// magnitude, the sign in the bit worth 64, and in its high bit whether
/// more follows; what follows are the bytes of the rest of the magnitude as
/// a natural number.
pub open spec fn encode_integer(value: int) -> Seq<u8> {
    let magnitude = if value < 0 {
        -value
    } else {
        value
    };
    let sign = if value < 0 {
        64int
    } else {
        0int
    };
    if magnitude < 64 {
        seq![(magnitude + sign) as u8]
    } else {
        seq![(magnitude % 64 + sign + 128) as u8] + encode_natural((magnitude / 64) as nat)
    }
}

/// Whether an integer can be read from the front of `bytes`: there is a
/// first byte, and where it announces more, more is there.
pub open spec fn integer_readable(bytes: Seq<u8>) -> bool {
    bytes.len() > 0 && (bytes[0] >= 128 ==> bytes.len() > 1)
}

/// The integer at the front of `bytes`.
pub open spec fn decode_integer(bytes: Seq<u8>) -> int
    recommends
        integer_readable(bytes),
{
    let first = bytes[0];
    let low = (first % 64) as int;
    let magnitude = if first >= 128 {
        low + 64 * decode_natural(bytes.skip(1))
    } else {
        low
    };
    if (first / 64) % 2 == 1 {
        -magnitude
    } else {
        magnitude
    }
}

/// How many leading bytes of `bytes` belong to its first integer.
pub open spec fn integer_len(bytes: Seq<u8>) -> nat
    recommends
        integer_readable(bytes),
{
    if bytes[0] >= 128 {
        1 + encoded_len(bytes.skip(1))
    } else {
        1
    }
}

/// Masking with 63 keeps the remainder modulo 64.
pub proof fn lemma_low_six_bits(a: nat)
    ensures
        bit_and(a, 63) == a % 64,
{
    let a1 = a / 2;
    let a2 = a1 / 2;
    let a3 = a2 / 2;
    let a4 = a3 / 2;
    let a5 = a4 / 2;
    assert(bit_and(a, 63) == 2 * bit_and(a1, 31) + a % 2);
    assert(bit_and(a1, 31) == 2 * bit_and(a2, 15) + a1 % 2);
    assert(bit_and(a2, 15) == 2 * bit_and(a3, 7) + a2 % 2);
    assert(bit_and(a3, 7) == 2 * bit_and(a4, 3) + a3 % 2);
    assert(bit_and(a4, 3) == 2 * bit_and(a5, 1) + a4 % 2);
    assert(bit_and(a5, 1) == 2 * bit_and(a5 / 2, 0) + a5 % 2);
    assert(bit_and(a5 / 2, 0) == 0);
}

/// Decoding gives back the integer that was encoded, reads exactly the
/// bytes of its encoding, and takes no notice of what follows them.
pub proof fn lemma_decode_encode_integer(value: int, rest: Seq<u8>)
    ensures
        integer_readable(encode_integer(value) + rest),
        decode_integer(encode_integer(value) + rest) == value,
        integer_len(encode_integer(value) + rest) == encode_integer(value).len(),
{
    let magnitude = if value < 0 {
        -value
    } else {
        value
    };
    let bytes = encode_integer(value) + rest;
    if magnitude < 64 {
        assert(bytes[0] == encode_integer(value)[0]);
    } else {
        let tail = encode_natural((magnitude / 64) as nat);
        assert(bytes[0] == encode_integer(value)[0]);
        assert(bytes.skip(1) =~= tail + rest);
        crate::natural::lemma_decode_encode((magnitude / 64) as nat, rest);
        crate::natural::lemma_encode_zero((magnitude / 64) as nat);
    }
}

/// Encodes integers to bytes and decodes them again.
#[derive(Debug)]
pub struct IntegerBytesCoder;

impl IntegerBytesCoder {
    pub fn new() -> (coder: Self) {
        IntegerBytesCoder {  }
    }

    /// The bytes of `value`; never fails.
    pub fn encode(&self, value: &Integer) -> (bytes: Result<Vec<u8>, Error>)
        ensures
            bytes.is_ok(),
            bytes.unwrap()@ == encode_integer(value@),
    {
        let abs: BigUint = value.magnitude().to_integer();
        let ghost magnitude = biguint_value(abs);
        proof {
            lemma2_to64();
            lemma_low_six_bits(magnitude);
        }
        let low: u8 = to_u8(&and_with(&abs, from_u8(0b0011_1111u8))).unwrap();
        let next_value = shift_right(&abs, 6u8);
        let has_next = !equal(&next_value, &zero());
        let sequence_mask: u8 = if has_next {
            0b1000_0000u8
        } else {
            0b0000_0000u8
        };
        let sign_mask: u8 = if value.negative() {
            0b0100_0000u8
        } else {
            0b0000_0000u8
        };
        let encoded_byte: u8 = low | sequence_mask | sign_mask;
        assert(encoded_byte == low + sequence_mask + sign_mask) by (bit_vector)
            requires
                encoded_byte == low | sequence_mask | sign_mask,
                low < 64,
                sequence_mask == 0 || sequence_mask == 128,
                sign_mask == 0 || sign_mask == 64,
        ;
        let mut encoded: Vec<u8> = Vec::new();
        encoded.push(encoded_byte);
        if has_next {
            let mut rest = NaturalBytesCoder::new().encode_unsigned(next_value);
            encoded.append(&mut rest);
        }
        assert(encoded@ =~= encode_integer(value@));
        Ok(encoded)
    }

    /// The integer at the front of `value`, which is left untouched.
    pub fn decode(&self, value: &Vec<u8>) -> (decoded: Result<Integer, Error>)
        ensures
            integer_readable(value@) <==> decoded.is_ok(),
            decoded.is_err() ==> decoded == Err::<Integer, Error>(Error::InvalidNaturalBytes),
            decoded.is_ok() ==> decoded.unwrap()@ == decode_integer(value@),
    {
        let mut value: Vec<u8> = value.clone();
        self.decode_consuming(&mut value)
    }

    /// Reads the integer at the front of `value` and removes its bytes. A
    /// buffer that is empty, or ends behind a first byte that announces
    /// more, is an error and is left empty.
    pub fn decode_consuming(&self, value: &mut Vec<u8>) -> (decoded: Result<Integer, Error>)
        ensures
            integer_readable(old(value)@) <==> decoded.is_ok(),
            decoded.is_err() ==> decoded == Err::<Integer, Error>(Error::InvalidNaturalBytes)
                && final(value)@.len() == 0,
            decoded.is_ok() ==> decoded.unwrap()@ == decode_integer(old(value)@) && final(value)@
                == old(value)@.skip(integer_len(old(value)@) as int),
    {
        let ghost bytes = value@;
        let byte = match consume_at(value, 0) {
            Some(byte) => byte,
            None => {
                return Err(Error::InvalidNaturalBytes);
            },
        };
        assert(value@ =~= bytes.skip(1));
        let low: u8 = byte & 0b0011_1111u8;
        let negative = (byte & 0b0100_0000u8) == 0b0100_0000u8;
        let has_next = (byte & 0b1000_0000u8) == 0b1000_0000u8;
        assert(low == byte % 64 && negative == ((byte / 64) % 2 == 1) && has_next == (byte >= 128))
            by (bit_vector)
            requires
                low == byte & 0b0011_1111u8,
                negative == ((byte & 0b0100_0000u8) == 0b0100_0000u8),
                has_next == ((byte & 0b1000_0000u8) == 0b1000_0000u8),
        ;
        let part = from_u8(low);
        let abs = if has_next {
            match NaturalBytesCoder::new().decode_consuming(value) {
                Ok(rest) => {
                    proof {
                        lemma2_to64();
                        lemma_encoded_len_bound(bytes.skip(1));
                        assert(bytes.skip(1).skip(encoded_len(bytes.skip(1)) as int) =~= bytes.skip(
                            1 + encoded_len(bytes.skip(1)) as int,
                        ));
                    }
                    sum(part, shift_left(rest.to_integer(), 6u8))
                },
                Err(error) => {
                    return Err(error);
                },
            }
        } else {
            part
        };
        Ok(Integer::new(negative, Natural::new(abs)))
    }
}

} // verus!
