use num_bigint::BigUint;
use tezos_codec::error::Error;
use tezos_codec::integer::IntegerBytesCoder;
use tezos_codec::micheline::Integer;
use tezos_codec::natural::Natural;

fn integer(negative: bool, digits: &str) -> Integer {
    Integer::new(negative, Natural::new(digits.parse::<BigUint>().unwrap()))
}

fn signed_values() -> Vec<(Integer, Vec<u8>)> {
    vec![
        (integer(false, "0"), vec![0]),
        (integer(false, "1"), vec![1]),
        (integer(true, "1"), vec![65]),
        (integer(false, "63"), vec![63]),
        (integer(true, "63"), vec![127]),
        (integer(false, "64"), vec![128, 1]),
        (integer(true, "64"), vec![192, 1]),
        (integer(false, "1000000"), vec![128, 137, 122]),
        (integer(true, "1000000"), vec![192, 137, 122]),
        (integer(false, "8191"), vec![191, 127]),
        (integer(false, "8192"), vec![128, 128, 1]),
    ]
}

#[test]
fn integer_encode_vectors() {
    let coder = IntegerBytesCoder::new();
    for (value, bytes) in signed_values() {
        assert_eq!(coder.encode(&value), Ok(bytes));
    }
}

#[test]
fn integer_decode_vectors() {
    let coder = IntegerBytesCoder::new();
    for (value, bytes) in signed_values() {
        assert_eq!(coder.decode(&bytes), Ok(value));
    }
}

#[test]
fn integer_round_trip_of_wide_values() {
    let coder = IntegerBytesCoder::new();
    for negative in [false, true] {
        let value = integer(negative, "41547452475632687683489977342365486797893454355756867843");
        let bytes = coder.encode(&value).unwrap();
        assert_eq!(coder.decode(&bytes), Ok(value));
    }
}

#[test]
fn integer_decode_consuming_leaves_the_rest() {
    let coder = IntegerBytesCoder::new();
    let mut bytes = vec![192u8, 137, 122, 65, 7];
    assert_eq!(coder.decode_consuming(&mut bytes), Ok(integer(true, "1000000")));
    assert_eq!(bytes, vec![65u8, 7]);
    assert_eq!(coder.decode_consuming(&mut bytes), Ok(integer(true, "1")));
    assert_eq!(bytes, vec![7u8]);
}

#[test]
fn integer_decode_of_too_few_bytes_is_an_error() {
    let coder = IntegerBytesCoder::new();
    assert_eq!(coder.decode(&vec![]), Err(Error::InvalidNaturalBytes));
    assert_eq!(coder.decode(&vec![128]), Err(Error::InvalidNaturalBytes));
    let mut bytes = vec![192u8];
    assert_eq!(coder.decode_consuming(&mut bytes), Err(Error::InvalidNaturalBytes));
    assert!(bytes.is_empty());
}

#[test]
fn integer_minus_zero_reads_as_zero() {
    let coder = IntegerBytesCoder::new();
    assert_eq!(coder.decode(&vec![64]), Ok(integer(false, "0")));
}
