use esplugin::game_id::GameId;
use esplugin::subrecord::{Subrecord, SubrecordError};

#[test]
fn parse_should_accept_a_zero_length_payload_in_the_long_length_variant() {
    let data: Vec<u8> = vec![0x44, 0x41, 0x54, 0x41, 0x00, 0x00, 0x00, 0x00];
    let (remaining, subrecord) = Subrecord::new(&data, GameId::Morrowind, 0, false).unwrap();

    assert_eq!("DATA", subrecord.subrecord_type);
    assert!(subrecord.data.is_empty());
    assert!(remaining.is_empty());
}

#[test]
fn parse_should_accept_a_zero_length_payload_in_the_short_length_variant() {
    let data: Vec<u8> = vec![0x43, 0x4E, 0x41, 0x4D, 0x00, 0x00];
    let (remaining, subrecord) = Subrecord::new(&data, GameId::Skyrim, 0, false).unwrap();

    assert_eq!("CNAM", subrecord.subrecord_type);
    assert!(subrecord.data.is_empty());
    assert!(remaining.is_empty());
}

#[test]
fn parse_should_report_incomplete_input_for_a_truncated_type_tag() {
    let data: Vec<u8> = vec![0x44, 0x41, 0x54];
    let result = Subrecord::new(&data, GameId::Skyrim, 0, false);

    assert_eq!(SubrecordError::IncompleteInput, result.unwrap_err());
}

#[test]
fn parse_should_report_incomplete_input_for_a_truncated_length_field() {
    let long_data: Vec<u8> = vec![0x44, 0x41, 0x54, 0x41, 0x08, 0x00, 0x00];
    let result = Subrecord::new(&long_data, GameId::Morrowind, 0, false);
    assert_eq!(SubrecordError::IncompleteInput, result.unwrap_err());

    let short_data: Vec<u8> = vec![0x43, 0x4E, 0x41, 0x4D, 0x0A];
    let result = Subrecord::new(&short_data, GameId::Skyrim, 0, false);
    assert_eq!(SubrecordError::IncompleteInput, result.unwrap_err());

    let presized_data: Vec<u8> = vec![0x43, 0x4E, 0x41, 0x4D, 0x0A];
    let result = Subrecord::new(&presized_data, GameId::Skyrim, 1, false);
    assert_eq!(SubrecordError::IncompleteInput, result.unwrap_err());
}

#[test]
fn parse_should_report_incomplete_input_for_a_long_payload_truncated_by_one_byte() {
    let data: Vec<u8> = vec![
        0x44, 0x41, 0x54, 0x41, 0x08, 0x00, 0x00, 0x00, 0x6D, 0x63, 0x61, 0x72, 0x6F, 0x66, 0x61,
    ];
    let result = Subrecord::new(&data, GameId::Morrowind, 0, false);

    assert_eq!(SubrecordError::IncompleteInput, result.unwrap_err());
}

#[test]
fn parse_should_report_incomplete_input_for_a_short_payload_truncated_by_one_byte() {
    let data: Vec<u8> = vec![
        0x43, 0x4E, 0x41, 0x4D, 0x0A, 0x00, 0x6D, 0x63, 0x61, 0x72, 0x6F, 0x66, 0x61, 0x6E, 0x6F,
    ];
    let result = Subrecord::new(&data, GameId::Skyrim, 0, false);

    assert_eq!(SubrecordError::IncompleteInput, result.unwrap_err());
}

#[test]
fn parse_should_report_incomplete_input_for_a_presized_payload_truncated_by_one_byte() {
    let data: Vec<u8> = vec![0x43, 0x4E, 0x41, 0x4D, 0x0A, 0x00, 0x6D, 0x63, 0x61];
    let result = Subrecord::new(&data, GameId::Skyrim, 4, false);

    assert_eq!(SubrecordError::IncompleteInput, result.unwrap_err());
}

#[test]
fn parse_should_report_malformed_input_for_a_type_tag_that_is_not_utf8() {
    let data: Vec<u8> = vec![
        0xFF, 0x41, 0x54, 0x41, 0x08, 0x00, 0x00, 0x00, 0x6D, 0x63, 0x61, 0x72, 0x6F, 0x66, 0x61,
        0x6E,
    ];
    let result = Subrecord::new(&data, GameId::Morrowind, 0, false);

    assert_eq!(SubrecordError::MalformedInput, result.unwrap_err());
}

#[test]
fn parse_should_accept_a_type_tag_containing_a_zero_byte() {
    let data: Vec<u8> = vec![0x41, 0x00, 0x42, 0x43, 0x01, 0x00, 0x6D];
    let (remaining, subrecord) = Subrecord::new(&data, GameId::Skyrim, 0, false).unwrap();

    assert_eq!("A\0BC", subrecord.subrecord_type);
    assert_eq!(vec![0x6D], subrecord.data);
    assert!(remaining.is_empty());
}

#[test]
fn parse_should_return_the_input_that_follows_the_subrecord() {
    let data: Vec<u8> = vec![
        0x43, 0x4E, 0x41, 0x4D, 0x02, 0x00, 0x6D, 0x63, 0xAA, 0xBB, 0xCC,
    ];
    let (remaining, subrecord) = Subrecord::new(&data, GameId::Skyrim, 0, false).unwrap();

    assert_eq!(vec![0x6D, 0x63], subrecord.data);
    assert_eq!(&[0xAA, 0xBB, 0xCC][..], remaining);
}

#[test]
fn parse_should_consume_but_ignore_the_wire_length_field_in_the_presized_variant() {
    let data: Vec<u8> = vec![
        0x43, 0x4E, 0x41, 0x4D, 0x0A, 0x00, 0x6D, 0x63, 0x61, 0x72, 0x6F, 0x66, 0x61, 0x6E, 0x6F,
        0x00,
    ];
    let altered: Vec<u8> = vec![
        0x43, 0x4E, 0x41, 0x4D, 0xFF, 0xFF, 0x6D, 0x63, 0x61, 0x72, 0x6F, 0x66, 0x61, 0x6E, 0x6F,
        0x00,
    ];
    let (remaining_a, subrecord_a) = Subrecord::new(&data, GameId::Skyrim, 4, false).unwrap();
    let (remaining_b, subrecord_b) = Subrecord::new(&altered, GameId::Skyrim, 4, false).unwrap();

    assert_eq!(subrecord_a.subrecord_type, subrecord_b.subrecord_type);
    assert_eq!(subrecord_a.data, subrecord_b.data);
    assert_eq!(remaining_a, remaining_b);
    assert_eq!(vec![0x6D, 0x63, 0x61, 0x72], subrecord_a.data);
}

#[test]
fn parse_should_store_the_compression_flag_verbatim() {
    let short_data: Vec<u8> = vec![0x43, 0x4E, 0x41, 0x4D, 0x01, 0x00, 0x6D];
    let (_, subrecord) = Subrecord::new(&short_data, GameId::Skyrim, 0, true).unwrap();
    assert!(subrecord.is_compressed);

    let (_, subrecord) = Subrecord::new(&short_data, GameId::Skyrim, 0, false).unwrap();
    assert!(!subrecord.is_compressed);

    let long_data: Vec<u8> = vec![0x44, 0x41, 0x54, 0x41, 0x01, 0x00, 0x00, 0x00, 0x6D];
    let (_, subrecord) = Subrecord::new(&long_data, GameId::Morrowind, 0, true).unwrap();
    assert!(subrecord.is_compressed);

    let (_, subrecord) = Subrecord::new(&short_data, GameId::Skyrim, 1, true).unwrap();
    assert!(subrecord.is_compressed);
}

#[test]
fn decompress_data_should_copy_the_payload_of_an_uncompressed_subrecord() {
    let data: Vec<u8> = vec![
        0x43, 0x4E, 0x41, 0x4D, 0x0A, 0x00, 0x6D, 0x63, 0x61, 0x72, 0x6F, 0x66, 0x61, 0x6E, 0x6F,
        0x00,
    ];
    let (_, subrecord) = Subrecord::new(&data, GameId::Skyrim, 0, false).unwrap();

    let first = subrecord.decompress_data().unwrap();
    let second = subrecord.decompress_data().unwrap();

    assert_eq!(subrecord.data, first);
    assert_eq!(subrecord.data, second);
}

#[test]
fn decompress_data_should_report_a_decompression_failure_for_a_corrupt_stream() {
    let data: Vec<u8> = vec![
        0x42, 0x50, 0x54, 0x4E, 0x1D, 0x00, 0x19, 0x00, 0x00, 0x00, 0x75, 0xc5, 0x21, 0x0d, 0x00,
        0x00, 0xA8, 0x05, 0xd1, 0x6c, 0x6c, 0xdc, 0x57, 0x48, 0x3c, 0xfd, 0x5b, 0x5c, 0x02, 0xd4,
        0x6b, 0x32, 0xb5, 0xdc, 0xa3,
    ];
    let (_, subrecord) = Subrecord::new(&data, GameId::Skyrim, 0, true).unwrap();

    assert_eq!(
        SubrecordError::DecompressionFailure,
        subrecord.decompress_data().unwrap_err()
    );
}
