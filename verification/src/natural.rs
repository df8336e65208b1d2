//! The variable-length byte form of natural numbers: groups of seven bits,
//! the least significant group first, the high bit of each byte telling
//! whether another group follows.

use crate::bigint::and_with;
use crate::bigint::biguint_value;
use crate::bigint::bit_and;
use crate::bigint::bit_or;
use crate::bigint::equal;
use crate::bigint::from_u8;
use crate::bigint::or_with;
use crate::bigint::shift_left;
use crate::bigint::shift_right;
use crate::bigint::sum;
use crate::bigint::to_u8;
use crate::bigint::zero;
use crate::consumable_list::consume_at;
use crate::error::Error;
use num_bigint::BigUint;
use vstd::arithmetic::power2::lemma2_to64;
use vstd::prelude::*;

verus! {

/// The bytes of a natural number: one byte with the number itself where it
/// is below 128; else its low seven bits with the high bit set, followed by
/// the bytes of the rest.
pub open spec fn encode_natural(n: nat) -> Seq<u8>
    decreases n,
{
    if n < 128 {
        seq![n as u8]
    } else {
        seq![(n % 128 + 128) as u8] + encode_natural(n / 128)
    }
}

/// The number that the leading groups of `bytes` spell: the groups up to and
/// including the first byte whose high bit is clear, or all of them where no
/// such byte comes. No bytes spell zero.
pub open spec fn decode_natural(bytes: Seq<u8>) -> nat
    decreases bytes.len(),
{
    if bytes.len() == 0 {
        0
    } else if bytes[0] < 128 {
        bytes[0] as nat
    } else {
        (bytes[0] - 128) as nat + 128 * decode_natural(bytes.skip(1))
    }
}

/// How many leading bytes of `bytes` belong to its first number.
pub open spec fn encoded_len(bytes: Seq<u8>) -> nat
    decreases bytes.len(),
{
    if bytes.len() == 0 {
        0
    } else if bytes[0] < 128 {
        1
    } else {
        1 + encoded_len(bytes.skip(1))
    }
}

/// What the groups of a number add to bytes already written: nothing for
/// zero, its bytes otherwise.
pub open spec fn encode_groups(n: nat) -> Seq<u8> {
    if n == 0 {
        Seq::empty()
    } else {
        encode_natural(n)
    }
}

/// Masking with 127 keeps the remainder modulo 128.
pub proof fn lemma_low_seven_bits(a: nat)
    ensures
        bit_and(a, 127) == a % 128,
{
    let a1 = a / 2;
    let a2 = a1 / 2;
    let a3 = a2 / 2;
    let a4 = a3 / 2;
    let a5 = a4 / 2;
    let a6 = a5 / 2;
    lemma_and_odd(a, 127);
    lemma_and_odd(a1, 63);
    lemma_and_odd(a2, 31);
    lemma_and_odd(a3, 15);
    lemma_and_odd(a4, 7);
    lemma_and_odd(a5, 3);
    lemma_and_odd(a6, 1);
    assert(bit_and(a6 / 2, 0) == 0);
}

/// One step of a conjunction with an odd mask.
proof fn lemma_and_odd(a: nat, mask: nat)
    requires
        mask % 2 == 1,
    ensures
        bit_and(a, mask) == 2 * bit_and(a / 2, mask / 2) + a % 2,
{
}

/// One step of a disjunction with an even, non-zero operand.
proof fn lemma_or_even(a: nat, flag: nat)
    requires
        a != 0,
        flag != 0,
        flag % 2 == 0,
    ensures
        bit_or(a, flag) == 2 * bit_or(a / 2, flag / 2) + a % 2,
{
}

/// The first number of a buffer ends within the buffer.
pub proof fn lemma_encoded_len_bound(bytes: Seq<u8>)
    ensures
        encoded_len(bytes) <= bytes.len(),
        bytes.len() > 0 ==> encoded_len(bytes) >= 1,
    decreases bytes.len(),
{
    if bytes.len() > 0 && bytes[0] >= 128 {
        lemma_encoded_len_bound(bytes.skip(1));
    }
}

/// Setting no bit, or the continuation bit, on a group of seven bits.
pub proof fn lemma_join_flag(group: nat)
    requires
        group < 128,
    ensures
        bit_or(group, 0) == group,
        bit_or(group, 128) == group + 128,
{
    let g1 = group / 2;
    let g2 = g1 / 2;
    let g3 = g2 / 2;
    let g4 = g3 / 2;
    let g5 = g4 / 2;
    let g6 = g5 / 2;
    assert(bit_or(0, 128) == 128 && bit_or(0, 64) == 64 && bit_or(0, 32) == 32);
    assert(bit_or(0, 16) == 16 && bit_or(0, 8) == 8 && bit_or(0, 4) == 4);
    assert(bit_or(0, 2) == 2 && bit_or(0, 1) == 1);
    if group != 0 {
        lemma_or_even(group, 128);
    }
    if g1 != 0 {
        lemma_or_even(g1, 64);
    }
    if g2 != 0 {
        lemma_or_even(g2, 32);
    }
    if g3 != 0 {
        lemma_or_even(g3, 16);
    }
    if g4 != 0 {
        lemma_or_even(g4, 8);
    }
    if g5 != 0 {
        lemma_or_even(g5, 4);
    }
    if g6 != 0 {
        lemma_or_even(g6, 2);
    }
    assert(g6 / 2 == 0);
}

/// Decoding gives back the number that was encoded, reads exactly the bytes
/// of its encoding, and takes no notice of what follows them.
pub proof fn lemma_decode_encode(n: nat, rest: Seq<u8>)
    ensures
        decode_natural(encode_natural(n) + rest) == n,
        encoded_len(encode_natural(n) + rest) == encode_natural(n).len(),
    decreases n,
{
    let bytes = encode_natural(n) + rest;
    if n < 128 {
        assert(bytes[0] == n as u8);
    } else {
        let tail = encode_natural(n / 128);
        assert(bytes[0] == (n % 128 + 128) as u8);
        assert(bytes.skip(1) =~= tail + rest);
        lemma_decode_encode(n / 128, rest);
        assert(encode_natural(n).len() == 1 + tail.len());
    }
}

/// An encoding is never empty, and only zero encodes to the single byte 0.
pub proof fn lemma_encode_zero(n: nat)
    ensures
        encode_natural(n).len() >= 1,
        encode_natural(0) == seq![0u8],
        n != 0 ==> encode_natural(n) != seq![0u8],
    decreases n,
{
    if n >= 128 {
        lemma_encode_zero(n / 128);
        assert(encode_natural(n)[0] == (n % 128 + 128) as u8);
    } else if n != 0 {
        assert(encode_natural(n)[0] == n as u8);
        assert(seq![0u8][0] == 0u8);
    }
}

/// An arbitrary-precision natural number.
#[derive(Debug, Clone, PartialEq, Eq)]
pub struct Natural {
    value: BigUint,
}

impl View for Natural {
    type V = nat;

    closed spec fn view(&self) -> nat {
        biguint_value(self.value)
    }
}

impl Natural {
    /// The natural number with the value of `value`.
    pub fn new(value: BigUint) -> (natural: Natural)
        ensures
            natural@ == biguint_value(value),
    {
        Natural { value }
    }

    /// Whether the number is zero.
    pub fn is_zero(&self) -> (none: bool)
        ensures
            none == (self@ == 0),
    {
        equal(&self.value, &zero())
    }

    /// The value as a big integer.
    pub fn to_integer(&self) -> (value: BigUint)
        ensures
            biguint_value(value) == self@,
    {
        self.value.clone()
    }
}

/// Encodes natural numbers to bytes and decodes them again.
#[derive(Debug)]
pub struct NaturalBytesCoder;

impl NaturalBytesCoder {
    pub fn new() -> (coder: Self) {
        NaturalBytesCoder {  }
    }

    /// The bytes of `value`; zero is the single byte 0.
    pub fn encode_unsigned(&self, value: BigUint) -> (bytes: Vec<u8>)
        ensures
            bytes@ == encode_natural(biguint_value(value)),
    {
        if equal(&value, &zero()) {
            return vec![0];
        }
        let bytes = self.encode_with(value, vec![]);
        assert(bytes@ =~= encode_natural(biguint_value(value)));
        bytes
    }

    /// Appends the groups of `value` to `encoded`; appends nothing for zero.
    pub fn encode_with(&self, value: BigUint, encoded: Vec<u8>) -> (bytes: Vec<u8>)
        ensures
            bytes@ == encoded@ + encode_groups(biguint_value(value)),
        decreases biguint_value(value),
    {
        if equal(&value, &zero()) {
            assert(encoded@ + Seq::<u8>::empty() =~= encoded@);
            return encoded;
        }
        let ghost n = biguint_value(value);
        let byte = and_with(&value, from_u8(0b0111_1111u8));
        let next_value = shift_right(&value, 7u8);
        let sequence_mask = if equal(&next_value, &zero()) {
            from_u8(0b0000_0000u8)
        } else {
            from_u8(0b1000_0000u8)
        };
        proof {
            lemma2_to64();
            lemma_low_seven_bits(n);
            lemma_join_flag(n % 128);
        }
        let encoded_byte = to_u8(&or_with(byte, sequence_mask)).unwrap();
        let ghost before = encoded@;
        let mut encoded = encoded;
        encoded.push(encoded_byte);
        let bytes = self.encode_with(next_value, encoded);
        assert(bytes@ =~= before + encode_groups(n));
        bytes
    }

    /// Reads the groups of one number from the front of `value` and removes
    /// the bytes read: the first group counts as it is, each later one 128
    /// times the one before it.
    pub fn decode_with(&self, value: &mut Vec<u8>) -> (result: BigUint)
        ensures
            biguint_value(result) == decode_natural(old(value)@),
            final(value)@ == old(value)@.skip(encoded_len(old(value)@) as int),
        decreases old(value)@.len(),
    {
        let ghost bytes = value@;
        if let Some(byte) = consume_at(value, 0) {
            assert(value@ =~= bytes.skip(1));
            let low: u8 = byte & 0b0111_1111u8;
            let has_next = (byte & 0b1000_0000u8) == 0b1000_0000u8;
            assert(low == byte % 128 && has_next == (byte >= 128)) by (bit_vector)
                requires
                    low == byte & 0b0111_1111u8,
                    has_next == ((byte & 0b1000_0000u8) == 0b1000_0000u8),
            ;
            let part = from_u8(low);
            if has_next {
                let rest = self.decode_with(value);
                proof {
                    lemma2_to64();
                    lemma_encoded_len_bound(bytes.skip(1));
                    assert(bytes.skip(1).skip(encoded_len(bytes.skip(1)) as int) =~= bytes.skip(
                        encoded_len(bytes) as int,
                    ));
                }
                return sum(part, shift_left(rest, 7u8));
            }
            return part;
        }
        assert(bytes.skip(0) =~= bytes);
        zero()
    }

    /// The bytes of `value`; never fails.
    pub fn encode(&self, value: &Natural) -> (bytes: Result<Vec<u8>, Error>)
        ensures
            bytes.is_ok(),
            bytes.unwrap()@ == encode_natural(value@),
    {
        let value: BigUint = value.to_integer();
        Ok(self.encode_unsigned(value))
    }

    /// The number at the front of `value`, which is left untouched. Bytes
    /// behind the number are ignored; no bytes at all are an error.
    pub fn decode(&self, value: &Vec<u8>) -> (decoded: Result<Natural, Error>)
        ensures
            value@.len() == 0 <==> decoded == Err::<Natural, Error>(Error::InvalidNaturalBytes),
            value@.len() > 0 <==> decoded.is_ok(),
            decoded.is_ok() ==> decoded.unwrap()@ == decode_natural(value@),
    {
        let mut value: Vec<u8> = value.clone();
        self.decode_consuming(&mut value)
    }

    /// Reads the number at the front of `value` and removes its bytes, so
    /// that the next value can be read from what is left. An empty buffer is
    /// an error and stays empty.
    pub fn decode_consuming(&self, value: &mut Vec<u8>) -> (decoded: Result<Natural, Error>)
        ensures
            old(value)@.len() == 0 <==> decoded == Err::<Natural, Error>(
                Error::InvalidNaturalBytes,
            ),
            old(value)@.len() > 0 <==> decoded.is_ok(),
            decoded.is_ok() ==> decoded.unwrap()@ == decode_natural(old(value)@),
            final(value)@ == old(value)@.skip(encoded_len(old(value)@) as int),
    {
        if value.is_empty() {
            assert(value@.skip(0) =~= value@);
            return Err(Error::InvalidNaturalBytes);
        }
        let result = self.decode_with(value);
        Ok(Natural::new(result))
    }
}

} // verus!
