use num_bigint::BigUint;
use tezos_codec::consumable_list::consume_at;
use tezos_codec::error::Error;
use tezos_codec::natural::Natural;
use tezos_codec::natural::NaturalBytesCoder;

fn natural(digits: &str) -> Natural {
    Natural::new(digits.parse::<BigUint>().unwrap())
}

fn test_values() -> Vec<(Natural, Vec<u8>)> {
    vec![
        (Natural::new(BigUint::from(0u8)), vec![0]),
        (Natural::new(BigUint::from(1u8)), vec![1]),
        (Natural::new(BigUint::from(10u8)), vec![10]),
        (Natural::new(BigUint::from(42u8)), vec![42]),
        (Natural::new(BigUint::from(64u8)), vec![64]),
        (Natural::new(BigUint::from(127u8)), vec![127]),
        (Natural::new(BigUint::from(128u32)), vec![128, 1]),
        (
            Natural::new(BigUint::from(18756523543673u64)),
            vec![249, 152, 177, 191, 241, 161, 4],
        ),
        (
            Natural::new(BigUint::from(6852352674543413768u64)),
            vec![136, 212, 238, 142, 188, 206, 156, 140, 95],
        ),
        (
            natural("54576326575686358562454576456764"),
            vec![
                188, 200, 169, 161, 243, 209, 156, 162, 224, 219, 253, 249, 153, 155, 172, 1,
            ],
        ),
        (
            natural("41547452475632687683489977342365486797893454355756867843"),
            vec![
                131, 194, 247, 231, 163, 173, 225, 186, 194, 204, 202, 215, 213, 207, 147, 226,
                197, 135, 146, 224, 236, 154, 165, 200, 198, 227, 6,
            ],
        ),
    ]
}

#[test]
fn test_encode() {
    for (value, bytes) in test_values() {
        let coder = NaturalBytesCoder::new();
        let encoded = coder.encode(&value).unwrap();
        assert_eq!(encoded, bytes);
    }
}

#[test]
fn test_decode() {
    for (value, bytes) in test_values() {
        let coder = NaturalBytesCoder::new();
        let decoded = coder.decode(&bytes).unwrap();
        assert_eq!(value, decoded);
    }
}

#[test]
fn encode_unsigned_of_zero_is_one_zero_byte() {
    let coder = NaturalBytesCoder::new();
    assert_eq!(coder.encode_unsigned(BigUint::from(0u8)), vec![0u8]);
}

#[test]
fn encode_unsigned_literal_vectors() {
    let coder = NaturalBytesCoder::new();
    assert_eq!(coder.encode_unsigned(BigUint::from(1u8)), vec![1u8]);
    assert_eq!(coder.encode_unsigned(BigUint::from(127u8)), vec![127u8]);
    assert_eq!(coder.encode_unsigned(BigUint::from(128u8)), vec![128u8, 1]);
    assert_eq!(
        coder.encode_unsigned(BigUint::from(18756523543673u64)),
        vec![249u8, 152, 177, 191, 241, 161, 4]
    );
    assert_eq!(
        coder.encode_unsigned("54576326575686358562454576456764".parse::<BigUint>().unwrap()),
        vec![188u8, 200, 169, 161, 243, 209, 156, 162, 224, 219, 253, 249, 153, 155, 172, 1]
    );
}

#[test]
fn encode_with_appends_to_what_is_there() {
    let coder = NaturalBytesCoder::new();
    assert_eq!(coder.encode_with(BigUint::from(128u8), vec![7, 7]), vec![7u8, 7, 128, 1]);
    assert_eq!(coder.encode_with(BigUint::from(0u8), vec![7, 7]), vec![7u8, 7]);
}

#[test]
fn decode_of_no_bytes_is_an_error() {
    let coder = NaturalBytesCoder::new();
    assert_eq!(coder.decode(&vec![]), Err(Error::InvalidNaturalBytes));
    let mut empty: Vec<u8> = vec![];
    assert_eq!(coder.decode_consuming(&mut empty), Err(Error::InvalidNaturalBytes));
    assert!(empty.is_empty());
}

#[test]
fn decode_leaves_its_input_untouched() {
    let coder = NaturalBytesCoder::new();
    let bytes = vec![128u8, 1, 5];
    let decoded = coder.decode(&bytes).unwrap();
    assert_eq!(decoded, Natural::new(BigUint::from(128u8)));
    assert_eq!(bytes, vec![128u8, 1, 5]);
}

#[test]
fn decode_consuming_reads_one_number_and_leaves_the_rest() {
    let coder = NaturalBytesCoder::new();
    let mut bytes = vec![249u8, 152, 177, 191, 241, 161, 4, 128, 1, 42, 9];
    let first = coder.decode_consuming(&mut bytes).unwrap();
    assert_eq!(first, Natural::new(BigUint::from(18756523543673u64)));
    assert_eq!(bytes, vec![128u8, 1, 42, 9]);
    let second = coder.decode_consuming(&mut bytes).unwrap();
    assert_eq!(second, Natural::new(BigUint::from(128u8)));
    let third = coder.decode_consuming(&mut bytes).unwrap();
    assert_eq!(third, Natural::new(BigUint::from(42u8)));
    assert_eq!(bytes, vec![9u8]);
}

#[test]
fn decode_of_an_unfinished_number_takes_what_is_there() {
    let coder = NaturalBytesCoder::new();
    let mut bytes = vec![129u8, 130];
    let decoded = coder.decode_consuming(&mut bytes).unwrap();
    assert_eq!(decoded, Natural::new(BigUint::from(1u32 + 2 * 128)));
    assert!(bytes.is_empty());
}

#[test]
fn decode_with_reads_groups_and_gives_zero_for_none() {
    let coder = NaturalBytesCoder::new();
    let mut bytes = vec![131u8, 8, 9];
    let decoded = coder.decode_with(&mut bytes);
    assert_eq!(decoded, BigUint::from(3u32 + 8 * 128));
    assert_eq!(bytes, vec![9u8]);
    let mut empty: Vec<u8> = vec![];
    assert_eq!(coder.decode_with(&mut empty), BigUint::from(0u8));
}

#[test]
fn decode_reads_numbers_wider_than_a_machine_word() {
    let coder = NaturalBytesCoder::new();
    let mut bytes = vec![255u8; 40];
    bytes.push(1);
    let decoded = coder.decode(&bytes).unwrap();
    let expected = (BigUint::from(1u8) << 281u32) - BigUint::from(1u8);
    assert_eq!(decoded, Natural::new(expected));
}

#[test]
fn round_trip_of_many_numbers() {
    let coder = NaturalBytesCoder::new();
    let mut value = BigUint::from(1u8);
    for step in 0u32..200 {
        let bytes = coder.encode_unsigned(value.clone());
        let decoded = coder.decode(&bytes).unwrap();
        assert_eq!(decoded.to_integer(), value);
        value = value * BigUint::from(3u8) + BigUint::from(step);
    }
}

#[test]
fn natural_knows_zero() {
    assert!(Natural::new(BigUint::from(0u8)).is_zero());
    assert!(!Natural::new(BigUint::from(300u32)).is_zero());
    assert_eq!(Natural::new(BigUint::from(300u32)).to_integer(), BigUint::from(300u32));
}

#[test]
fn consume_at_takes_the_element_out() {
    let mut list = vec![10u8, 20, 30];
    assert_eq!(consume_at(&mut list, 1), Some(20));
    assert_eq!(list, vec![10u8, 30]);
    assert_eq!(consume_at(&mut list, 0), Some(10));
    assert_eq!(list, vec![30u8]);
}

#[test]
fn consume_at_past_the_end_takes_nothing() {
    let mut list = vec![10u8, 20];
    assert_eq!(consume_at(&mut list, 2), None);
    assert_eq!(list, vec![10u8, 20]);
    let mut empty: Vec<u8> = vec![];
    assert_eq!(consume_at(&mut empty, 0), None);
}
