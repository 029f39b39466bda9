use monproflib::monitor::edid::{Edid, EdidError, EdidErrorKind, EDID_MAGIC_ID, EDID_MIN_LENGTH};

/// A block of `length` bytes that begins with the magic id as far as it
/// reaches and holds `identity` from offset 8 on.
fn block(length: usize, identity: &[u8]) -> Vec<u8> {
    let mut bytes = vec![0u8; length];
    for (at, byte) in EDID_MAGIC_ID.iter().enumerate() {
        if at < length {
            bytes[at] = *byte;
        }
    }
    for (at, byte) in identity.iter().enumerate() {
        if 8 + at < length {
            bytes[8 + at] = *byte;
        }
    }
    bytes
}

/// The two bytes that pack three letters.
fn packed(letters: &str) -> [u8; 2] {
    let numbers: Vec<u16> = letters.bytes().map(|letter| (letter - b'A' + 1) as u16).collect();
    let word = (numbers[0] << 10) | (numbers[1] << 5) | numbers[2];
    [(word >> 8) as u8, (word & 0xFF) as u8]
}

fn synthetic(letters: &str, product_code: u16, serial_number: u32, length: usize) -> Vec<u8> {
    let id = packed(letters);
    let identity = [
        id[0],
        id[1],
        (product_code & 0xFF) as u8,
        (product_code >> 8) as u8,
        (serial_number & 0xFF) as u8,
        ((serial_number >> 8) & 0xFF) as u8,
        ((serial_number >> 16) & 0xFF) as u8,
    ];
    block(length, &identity)
}

fn error_of(stream: &[u8]) -> EdidError {
    match Edid::parse(stream) {
        Ok(edid) => panic!("expected a failure, got {:?}", edid),
        Err(error) => error,
    }
}

#[test]
fn parse_rejects_streams_shorter_than_the_magic_id() {
    for length in 0..8usize {
        let error = error_of(&block(length, &[]));
        assert_eq!(error.kind(), EdidErrorKind::UnexpectedEndOfStream);
        assert_eq!(
            error.message(),
            format!("Expected EDID data stream to contain at least 8 bytes, found {} bytes", length)
        );
    }
}

#[test]
fn parse_rejects_short_streams_whatever_they_hold() {
    let error = error_of(&[0xAB, 0xCD, 0xEF]);
    assert_eq!(error.kind(), EdidErrorKind::UnexpectedEndOfStream);
    assert_eq!(
        error.message(),
        "Expected EDID data stream to contain at least 8 bytes, found 3 bytes"
    );
}

#[test]
fn parse_rejects_truncated_blocks_after_the_magic_id() {
    for length in [8usize, 9, 15, 64, 100, 127] {
        let error = error_of(&synthetic("DEL", 1, 2, length));
        assert_eq!(error.kind(), EdidErrorKind::UnexpectedEndOfStream);
        assert_eq!(
            error.message(),
            format!("Expected EDID data stream to contain at least 128 bytes, found {} bytes", length)
        );
    }
}

#[test]
fn parse_rejects_a_wrong_magic_id_at_any_length() {
    for length in [8usize, 20, 127, 128, 129, 256, 1000] {
        for at in 0..8usize {
            let mut stream = synthetic("DEL", 1, 2, length);
            stream[at] ^= 0x01;
            let error = error_of(&stream);
            assert_eq!(error.kind(), EdidErrorKind::InvalidMagicId);
            assert_eq!(
                error.message(),
                "Stream header does not contain valid EDID magic id pattern"
            );
        }
        let error = error_of(&vec![0u8; length]);
        assert_eq!(error.kind(), EdidErrorKind::InvalidMagicId);
    }
}

#[test]
fn parse_decodes_the_letters_for_the_numbers_one_one_one() {
    let stream = block(128, &[0x04, 0x21]);
    let edid = Edid::parse(&stream).expect("a valid block");
    assert_eq!(edid.manufacturer_id(), "AAA");
}

#[test]
fn parse_ignores_the_reserved_bit_of_the_manufacturer_id() {
    let stream = block(128, &[0x84, 0x21]);
    let edid = Edid::parse(&stream).expect("a valid block");
    assert_eq!(edid.manufacturer_id(), "AAA");
}

#[test]
fn parse_gives_the_neighbours_of_the_letters_for_numbers_out_of_range() {
    let zeros = Edid::parse(&block(128, &[0x00, 0x00])).expect("a valid block");
    assert_eq!(zeros.manufacturer_id(), "@@@");
    assert_eq!(zeros.manufacturer_name(), "Unknown Manufacturer");
    let ones = Edid::parse(&block(128, &[0x7F, 0xFF])).expect("a valid block");
    assert_eq!(ones.manufacturer_id(), "___");
    let mixed = Edid::parse(&block(128, &[0x6F, 0x9D])).expect("a valid block");
    assert_eq!(mixed.manufacturer_id(), "[\\]");
}

#[test]
fn parse_resolves_a_manufacturer_of_the_table() {
    let stream = block(128, &[0x10, 0xAC]);
    let edid = Edid::parse(&stream).expect("a valid block");
    assert_eq!(edid.manufacturer_id(), "DEL");
    assert_eq!(edid.manufacturer_name(), "Dell Inc.");
}

#[test]
fn parse_names_a_manufacturer_that_the_table_lacks() {
    let stream = synthetic("XQZ", 0, 0, 128);
    let edid = Edid::parse(&stream).expect("a valid block");
    assert_eq!(edid.manufacturer_id(), "XQZ");
    assert_eq!(edid.manufacturer_name(), "Unknown Manufacturer");
}

#[test]
fn parse_decodes_the_product_code_low_byte_first() {
    let stream = block(128, &[0x04, 0x21, 0x34, 0x12]);
    let edid = Edid::parse(&stream).expect("a valid block");
    assert_eq!(edid.product_code(), 0x1234);
}

#[test]
fn parse_decodes_the_serial_number_low_byte_first() {
    let stream = block(128, &[0x04, 0x21, 0x00, 0x00, 0x78, 0x56, 0x34]);
    let edid = Edid::parse(&stream).expect("a valid block");
    assert_eq!(edid.serial_number(), 0x345678);
}

#[test]
fn parse_does_not_read_the_byte_after_the_serial_number() {
    let stream = block(128, &[0x04, 0x21, 0x00, 0x00, 0x78, 0x56, 0x34, 0xFF]);
    let edid = Edid::parse(&stream).expect("a valid block");
    assert_eq!(edid.serial_number(), 0x345678);
}

#[test]
fn parse_gives_back_the_identity_a_block_was_made_from() {
    let identities: [(&str, u16, u32); 7] = [
        ("AAA", 0, 0),
        ("ZZZ", 0xFFFF, 0xFF_FFFF),
        ("DEL", 0xA0B1, 0x01_0203),
        ("SAM", 0x00FF, 0x00_00FF),
        ("GSM", 0xFF00, 0xFF_0000),
        ("AZA", 1, 0x00_FF00),
        ("HWP", 0x8000, 0x80_0000),
    ];
    for (letters, product_code, serial_number) in identities {
        for length in [128usize, 129, 256, 384] {
            let stream = synthetic(letters, product_code, serial_number, length);
            let edid = Edid::parse(&stream).expect("a valid block");
            assert_eq!(edid.manufacturer_id(), letters);
            assert_eq!(edid.manufacturer_name(), Edid::get_manufacturer_name(letters));
            assert_eq!(edid.product_code(), product_code);
            assert_eq!(edid.serial_number(), serial_number);
        }
    }
}

#[test]
fn parse_decodes_every_triple_of_letters() {
    for first in b'A'..=b'Z' {
        for second in b'A'..=b'Z' {
            for third in [b'A', b'M', b'Z'] {
                let letters = String::from_utf8(vec![first, second, third]).expect("letters");
                let stream = synthetic(&letters, 7, 9, 128);
                assert_eq!(Edid::parse_manufacturer_id(&stream), letters);
            }
        }
    }
}

#[test]
fn assert_magic_id_checks_the_first_eight_bytes() {
    assert!(Edid::assert_magic_id(&EDID_MAGIC_ID).is_ok());
    assert!(Edid::assert_magic_id(&block(8, &[])).is_ok());
    assert!(Edid::assert_magic_id(&block(300, &[])).is_ok());
    let short = Edid::assert_magic_id(&EDID_MAGIC_ID[..7]).expect_err("seven bytes");
    assert_eq!(short.kind(), EdidErrorKind::UnexpectedEndOfStream);
    assert_eq!(
        short.message(),
        "Expected EDID data stream to contain at least 8 bytes, found 7 bytes"
    );
    let wrong = Edid::assert_magic_id(&[0x00, 0xFF, 0xFF, 0xFF, 0xFF, 0xFF, 0xFF, 0x01])
        .expect_err("a wrong last byte");
    assert_eq!(wrong.kind(), EdidErrorKind::InvalidMagicId);
    let reversed = Edid::assert_magic_id(&[0xFF, 0x00, 0x00, 0x00, 0x00, 0x00, 0x00, 0xFF])
        .expect_err("the complement");
    assert_eq!(reversed.kind(), EdidErrorKind::InvalidMagicId);
}

#[test]
fn assert_stream_length_asks_for_a_base_block() {
    assert_eq!(EDID_MIN_LENGTH, 128);
    assert!(Edid::assert_stream_length(128).is_ok());
    assert!(Edid::assert_stream_length(129).is_ok());
    assert!(Edid::assert_stream_length(u64::MAX).is_ok());
    let error = Edid::assert_stream_length(127).expect_err("one byte short");
    assert_eq!(error.kind(), EdidErrorKind::UnexpectedEndOfStream);
    assert_eq!(
        error.message(),
        "Expected EDID data stream to contain at least 128 bytes, found 127 bytes"
    );
    let empty = Edid::assert_stream_length(0).expect_err("no byte");
    assert_eq!(
        empty.message(),
        "Expected EDID data stream to contain at least 128 bytes, found 0 bytes"
    );
}

#[test]
fn field_decoders_read_their_offsets() {
    let mut stream = vec![0u8; 128];
    stream[8] = 0x4C;
    stream[9] = 0x2D;
    stream[10] = 0xCD;
    stream[11] = 0xAB;
    stream[12] = 0x01;
    stream[13] = 0x02;
    stream[14] = 0x03;
    assert_eq!(Edid::parse_manufacturer_id(&stream), "SAM");
    assert_eq!(Edid::parse_product_code(&stream), 0xABCD);
    assert_eq!(Edid::parse_manufacturer_serial_number(&stream), 0x03_0201);
}

#[test]
fn edid_error_keeps_message_and_kind() {
    let error = EdidError::new(String::from("no EDID"), EdidErrorKind::InvalidMagicId);
    assert_eq!(error.message(), "no EDID");
    assert_eq!(error.kind(), EdidErrorKind::InvalidMagicId);
    assert_ne!(error.kind(), EdidErrorKind::UnexpectedEndOfStream);
}
