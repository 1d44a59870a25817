use poseidon_ffi::decoder::{decode, parse_inputs};
use poseidon_ffi::errors::{DecodeError, Failure, HashError, ParseError};
use poseidon_ffi::field::{FieldElement, MAX_DIGITS, MODULUS_LIMBS};
use poseidon_ffi::hasher::{invoke, MAX_INPUTS};
use poseidon_ffi::returncodes::{ReturnCodes, BUFFER_TOO_SMALL, INVALID_INPUT};
use poseidon_ffi::utils::write_to_buffer;

fn element(low: u64) -> FieldElement {
    FieldElement::from_limbs([low, 0, 0, 0]).unwrap()
}

fn strings(items: &[&str]) -> Vec<String> {
    items.iter().map(|s| s.to_string()).collect()
}

#[test]
fn write_copies_payload_and_terminator() {
    let mut buffer: Vec<u8> = vec![0xaa; 8];
    let code = write_to_buffer(&"abc".to_string(), &mut buffer, 8);
    assert_eq!(code, 3);
    assert_eq!(buffer, vec![b'a', b'b', b'c', 0, 0xaa, 0xaa, 0xaa, 0xaa]);
}

#[test]
fn write_fits_exactly() {
    let mut buffer: Vec<u8> = vec![0xaa; 4];
    assert_eq!(write_to_buffer(&"abc".to_string(), &mut buffer, 4), 3);
    assert_eq!(buffer, vec![b'a', b'b', b'c', 0]);
}

#[test]
fn write_refuses_when_the_terminator_has_no_room() {
    let mut buffer: Vec<u8> = vec![0xaa; 8];
    assert_eq!(write_to_buffer(&"abc".to_string(), &mut buffer, 3), -1000);
    assert_eq!(write_to_buffer(&"abc".to_string(), &mut buffer, 2), -1000);
    assert_eq!(write_to_buffer(&"abc".to_string(), &mut buffer, 0), -1000);
    assert_eq!(write_to_buffer(&"abc".to_string(), &mut buffer, -1), -1000);
    assert_eq!(write_to_buffer(&"abc".to_string(), &mut buffer, i32::MIN), -1000);
    assert_eq!(buffer, vec![0xaa; 8]);
}

#[test]
fn write_of_empty_string_writes_the_terminator_only() {
    let mut buffer: Vec<u8> = vec![0xaa; 2];
    assert_eq!(write_to_buffer(&String::new(), &mut buffer, 1), 0);
    assert_eq!(buffer, vec![0, 0xaa]);
    assert_eq!(write_to_buffer(&String::new(), &mut buffer, 0), -1000);
}

#[test]
fn write_stays_within_max_len_of_a_longer_buffer() {
    let mut buffer: Vec<u8> = vec![0xaa; 10];
    assert_eq!(write_to_buffer(&"abcdef".to_string(), &mut buffer, 6), -1000);
    assert_eq!(buffer, vec![0xaa; 10]);
    assert_eq!(write_to_buffer(&"abcdef".to_string(), &mut buffer, 7), 6);
    assert_eq!(&buffer[..7], b"abcdef\0");
    assert_eq!(&buffer[7..], &[0xaa; 3]);
}

#[test]
fn write_counts_bytes_not_characters() {
    let mut buffer: Vec<u8> = vec![0xaa; 8];
    // two characters, three bytes
    assert_eq!(write_to_buffer(&"a\u{e9}".to_string(), &mut buffer, 3), -1000);
    assert_eq!(write_to_buffer(&"a\u{e9}".to_string(), &mut buffer, 4), 3);
    assert_eq!(&buffer[..4], &[b'a', 0xc3, 0xa9, 0]);
}

#[test]
fn parse_inputs_reads_literals() {
    let parsed = parse_inputs(&strings(&["0", "123", "18446744073709551616"])).unwrap();
    assert_eq!(parsed.len(), 3);
    assert_eq!(parsed[0].limbs(), [0, 0, 0, 0]);
    assert_eq!(parsed[1].limbs(), [123, 0, 0, 0]);
    assert_eq!(parsed[2].limbs(), [0, 1, 0, 0]);
    assert_eq!(parsed[1], element(123));
}

#[test]
fn parse_inputs_of_nothing_is_nothing() {
    assert_eq!(parse_inputs(&Vec::new()).unwrap(), Vec::new());
}

#[test]
fn parse_inputs_reduces_by_the_modulus() {
    let parsed = parse_inputs(&strings(&[
        "21888242871839275222246405745257275088548364400416034343698204186575808495616",
        "21888242871839275222246405745257275088548364400416034343698204186575808495617",
        "21888242871839275222246405745257275088548364400416034343698204186575808495618",
        "43776485743678550444492811490514550177096728800832068687396408373151616991235",
    ]))
    .unwrap();
    assert_eq!(
        parsed[0].limbs(),
        [MODULUS_LIMBS[0] - 1, MODULUS_LIMBS[1], MODULUS_LIMBS[2], MODULUS_LIMBS[3]]
    );
    assert_eq!(parsed[1], element(0));
    assert_eq!(parsed[2], element(1));
    // twice the modulus and one
    assert_eq!(parsed[3], element(1));
}

#[test]
fn parse_inputs_is_all_or_nothing() {
    for bad in ["", "e", "12e", "e12", "007", "00", "+1", "-1", " 1", "1 ", "1.0", "0x10", "\u{663}"] {
        let error = parse_inputs(&strings(&["1", bad, "2"])).unwrap_err();
        assert_eq!(error.message, "Failed to parse inputs", "for {:?}", bad);
    }
    assert!(parse_inputs(&strings(&["1", "0", "2"])).is_ok());
}

#[test]
fn parse_error_is_rendered_with_its_name() {
    let error = parse_inputs(&strings(&["x"])).unwrap_err();
    assert_eq!(error.to_string(), "ParseError: Failed to parse inputs");
    let other = ParseError { message: "oops".to_string() };
    assert_eq!(other.to_string(), "ParseError: oops");
    assert_eq!(ParseError { message: String::new() }.to_string(), "ParseError: ");
}

#[test]
fn decode_reads_an_array_of_literals() {
    let decoded = decode("[\"123\", \"456\"]").unwrap();
    assert_eq!(decoded, vec![element(123), element(456)]);
    assert_eq!(decode("[]"), Ok(Vec::new()));
    assert_eq!(decode("[\"\\u0031\\u0032\"]"), Ok(vec![element(12)]));
}

#[test]
fn decode_tells_malformed_from_unparsable() {
    assert_eq!(decode("[\"123\", \"4x6\"]"), Err(DecodeError::ElementParse));
    assert_eq!(decode("[\"\"]"), Err(DecodeError::ElementParse));
    assert_eq!(decode("[\"123\", 456]"), Err(DecodeError::Malformed));
    assert_eq!(decode("[\"123\","), Err(DecodeError::Malformed));
    assert_eq!(decode("null"), Err(DecodeError::Malformed));
    assert_eq!(decode("[[\"1\"]]"), Err(DecodeError::Malformed));
    assert_eq!(decode("[null]"), Err(DecodeError::Malformed));
}

#[test]
fn invoke_hashes_one_to_twelve_elements() {
    assert_eq!(
        invoke(&vec![element(0)]),
        Ok("19014214495641488759237505126948346942972912379615652741039992445865937985820"
            .to_string())
    );
    assert_eq!(
        invoke(&vec![element(123)]),
        Ok("9904028930859697121695025471312564917337032846528014134060777877259199866166"
            .to_string())
    );
    assert_eq!(
        invoke(&vec![element(123), element(456)]),
        Ok("19620391833206800292073497099357851348339828238212863168390691880932172496143"
            .to_string())
    );
    assert_eq!(
        invoke(&vec![element(1), element(2)]),
        Ok("7853200120776062878684798364095072458815029376092732009249414926327459813530"
            .to_string())
    );
    for count in 1..=MAX_INPUTS {
        let elements: Vec<FieldElement> = (0..count as u64).map(element).collect();
        let digits = invoke(&elements).unwrap();
        assert!(!digits.is_empty() && digits.len() <= MAX_DIGITS);
        assert!(digits.bytes().all(|b| b.is_ascii_digit()));
        assert!(!digits.starts_with('0'));
    }
}

#[test]
fn invoke_refuses_the_empty_vector_only() {
    assert_eq!(invoke(&Vec::new()), Err(HashError::PrimitiveFailed));
    let thirteen: Vec<FieldElement> = (0..13).map(element).collect();
    assert!(invoke(&thirteen).is_ok());
    let many: Vec<FieldElement> = (0..300).map(element).collect();
    assert!(invoke(&many).is_ok());
}

fn element_of(digits: String) -> FieldElement {
    parse_inputs(&vec![digits]).unwrap()[0]
}

#[test]
fn invoke_takes_long_vectors_in_frames() {
    let all: Vec<FieldElement> = (1..=24).map(element).collect();
    let first = element_of(invoke(&all[..12].to_vec()).unwrap());
    for count in 13..=23 {
        let mut second: Vec<FieldElement> = vec![first];
        second.extend_from_slice(&all[12..count]);
        assert_eq!(invoke(&all[..count].to_vec()), invoke(&second), "for {} elements", count);
    }
    let mut second: Vec<FieldElement> = vec![first];
    second.extend_from_slice(&all[12..23]);
    assert_eq!(second.len(), MAX_INPUTS);
    let third = vec![element_of(invoke(&second).unwrap()), all[23]];
    assert_eq!(invoke(&all), invoke(&third));
    assert_ne!(invoke(&all), invoke(&all[..23].to_vec()));
}

#[test]
fn invoke_writes_one_to_77_digits_for_any_length() {
    for count in [1usize, 2, 11, 12, 13, 14, 23, 24, 25, 100] {
        let elements: Vec<FieldElement> = (0..count as u64).map(element).collect();
        let digits = invoke(&elements).unwrap();
        assert!(!digits.is_empty() && digits.len() <= MAX_DIGITS);
        assert!(digits.bytes().all(|b| b.is_ascii_digit()));
        assert!(digits == "0" || !digits.starts_with('0'));
    }
}

#[test]
fn from_limbs_accepts_exactly_what_is_below_the_modulus() {
    assert!(FieldElement::from_limbs([0, 0, 0, 0]).is_some());
    assert!(FieldElement::from_limbs(MODULUS_LIMBS).is_none());
    let below = [MODULUS_LIMBS[0] - 1, MODULUS_LIMBS[1], MODULUS_LIMBS[2], MODULUS_LIMBS[3]];
    assert_eq!(FieldElement::from_limbs(below).unwrap().limbs(), below);
    let above = [MODULUS_LIMBS[0] + 1, MODULUS_LIMBS[1], MODULUS_LIMBS[2], MODULUS_LIMBS[3]];
    assert!(FieldElement::from_limbs(above).is_none());
    assert!(FieldElement::from_limbs([0, 0, 0, MODULUS_LIMBS[3] + 1]).is_none());
    assert!(FieldElement::from_limbs([u64::MAX, u64::MAX, u64::MAX, MODULUS_LIMBS[3] - 1]).is_some());
    assert!(FieldElement::from_limbs([u64::MAX, u64::MAX, MODULUS_LIMBS[2] - 1, MODULUS_LIMBS[3]]).is_some());
    assert!(FieldElement::from_limbs([0, 0, MODULUS_LIMBS[2] + 1, MODULUS_LIMBS[3]]).is_none());
    assert!(FieldElement::from_limbs([u64::MAX, MODULUS_LIMBS[1] - 1, MODULUS_LIMBS[2], MODULUS_LIMBS[3]]).is_some());
    assert!(FieldElement::from_limbs([0, MODULUS_LIMBS[1] + 1, MODULUS_LIMBS[2], MODULUS_LIMBS[3]]).is_none());
    assert!(FieldElement::from_limbs([u64::MAX; 4]).is_none());
}

#[test]
fn elements_are_written_in_decimal() {
    assert_eq!(element(123).to_decimal_string(), "123");
    assert_eq!(element(1).to_decimal_string(), "1");
    assert_eq!(element(100).to_decimal_string(), "100");
    assert_eq!(
        FieldElement::from_limbs([0, 1, 0, 0]).unwrap().to_decimal_string(),
        "18446744073709551616"
    );
    let largest = [MODULUS_LIMBS[0] - 1, MODULUS_LIMBS[1], MODULUS_LIMBS[2], MODULUS_LIMBS[3]];
    assert_eq!(
        FieldElement::from_limbs(largest).unwrap().to_decimal_string(),
        "21888242871839275222246405745257275088548364400416034343698204186575808495616"
    );
}

#[test]
fn zero_is_written_as_one_digit() {
    assert_eq!(element(0).to_decimal_string(), "0");
}

#[test]
fn writing_then_reading_gives_the_element_back() {
    for limbs in [[0, 0, 0, 0], [5, 0, 0, 0], [0, 0, 1, 0], [7, 8, 9, 10], [u64::MAX, 1, 2, 3]] {
        let e = FieldElement::from_limbs(limbs).unwrap();
        let parsed = parse_inputs(&vec![e.to_decimal_string()]).unwrap();
        assert_eq!(parsed, vec![e]);
    }
}

#[test]
fn return_codes_have_their_numbers() {
    assert_eq!(ReturnCodes::InvalidInput.code(), -1);
    assert_eq!(ReturnCodes::BufferTooSmall.code(), -1000);
    assert_eq!(INVALID_INPUT, -1);
    assert_eq!(BUFFER_TOO_SMALL, -1000);
}

#[test]
fn failures_collapse_into_two_codes() {
    assert_eq!(Failure::InvalidEncoding.return_code(), ReturnCodes::InvalidInput);
    assert_eq!(Failure::MalformedStructure.return_code(), ReturnCodes::InvalidInput);
    assert_eq!(Failure::ElementParseFailure.return_code(), ReturnCodes::InvalidInput);
    assert_eq!(Failure::PrimitiveRejection.return_code(), ReturnCodes::InvalidInput);
    assert_eq!(
        Failure::BufferTooSmall { length: 77 }.return_code(),
        ReturnCodes::BufferTooSmall
    );
    assert_eq!(Failure::from_decode(DecodeError::Malformed), Failure::MalformedStructure);
    assert_eq!(Failure::from_decode(DecodeError::ElementParse), Failure::ElementParseFailure);
    assert_eq!(Failure::from_hash(HashError::PrimitiveFailed), Failure::PrimitiveRejection);
}
