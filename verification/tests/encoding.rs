use firmware_patch::{
    encoded_or_error, CmdError, Config, MAX_NAME_BYTES, NAME_TOO_LONG, WRITE_FAILED,
};
use serde::ser::{Serialize, SerializeStruct, Serializer};
use std::io;

fn record(name: &str, left: u8, right: u8) -> Config {
    Config { ble_name: name.to_string(), left_servo: left, right_servo: right }
}

/// The record as a struct with named fields, serialized field by field.
struct Named<'a> {
    ble_name: &'a str,
    left_servo: u8,
    right_servo: u8,
}

impl<'a> Serialize for Named<'a> {
    fn serialize<S: Serializer>(&self, serializer: S) -> Result<S::Ok, S::Error> {
        let mut fields = serializer.serialize_struct("Config", 3)?;
        fields.serialize_field("ble_name", self.ble_name)?;
        fields.serialize_field("left_servo", &self.left_servo)?;
        fields.serialize_field("right_servo", &self.right_servo)?;
        fields.end()
    }
}

#[test]
fn bot_record_encodes_as_three_element_array() {
    let bytes = record("Bot", 10, 200).encode().unwrap();
    assert_eq!(bytes, vec![0x93, 0xa3, b'B', b'o', b't', 0x0a, 0xcc, 0xc8]);
}

#[test]
fn empty_name_encodes_with_empty_string() {
    let bytes = record("", 0, 0).encode().unwrap();
    assert_eq!(bytes, vec![0x93, 0xa0, 0x00, 0x00]);
}

#[test]
fn calibration_below_128_takes_one_byte() {
    let bytes = record("a", 127, 0).encode().unwrap();
    assert_eq!(bytes, vec![0x93, 0xa1, b'a', 0x7f, 0x00]);
}

#[test]
fn calibration_from_128_takes_marker_and_byte() {
    let bytes = record("a", 128, 255).encode().unwrap();
    assert_eq!(bytes, vec![0x93, 0xa1, b'a', 0xcc, 0x80, 0xcc, 0xff]);
}

#[test]
fn name_of_31_bytes_uses_short_form() {
    let name = "x".repeat(31);
    let bytes = record(&name, 1, 2).encode().unwrap();
    assert_eq!(bytes.len(), 1 + 1 + 31 + 2);
    assert_eq!(bytes[1], 0xbf);
    assert_eq!(&bytes[2..33], name.as_bytes());
    assert_eq!(&bytes[33..], &[1, 2]);
}

#[test]
fn name_of_32_bytes_uses_one_length_byte() {
    let name = "x".repeat(32);
    let bytes = record(&name, 1, 2).encode().unwrap();
    assert_eq!(bytes.len(), 1 + 2 + 32 + 2);
    assert_eq!(&bytes[..3], &[0x93, 0xd9, 32]);
    assert_eq!(&bytes[3..35], name.as_bytes());
}

#[test]
fn name_of_255_bytes_uses_one_length_byte() {
    let name = "y".repeat(255);
    let bytes = record(&name, 1, 2).encode().unwrap();
    assert_eq!(&bytes[..3], &[0x93, 0xd9, 0xff]);
    assert_eq!(bytes.len(), 1 + 2 + 255 + 2);
}

#[test]
fn name_of_256_bytes_uses_two_length_bytes() {
    let name = "z".repeat(256);
    let bytes = record(&name, 1, 2).encode().unwrap();
    assert_eq!(&bytes[..4], &[0x93, 0xda, 0x01, 0x00]);
    assert_eq!(bytes.len(), 1 + 3 + 256 + 2);
}

#[test]
fn name_of_65535_bytes_uses_two_length_bytes() {
    let name = "z".repeat(65535);
    let bytes = record(&name, 1, 2).encode().unwrap();
    assert_eq!(&bytes[..4], &[0x93, 0xda, 0xff, 0xff]);
    assert_eq!(bytes.len(), 1 + 3 + 65535 + 2);
}

#[test]
fn name_of_65536_bytes_uses_four_length_bytes() {
    let name = "w".repeat(65536);
    let bytes = record(&name, 200, 2).encode().unwrap();
    assert_eq!(&bytes[..6], &[0x93, 0xdb, 0x00, 0x01, 0x00, 0x00]);
    assert_eq!(bytes.len(), 1 + 5 + 65536 + 3);
    assert_eq!(&bytes[bytes.len() - 3..], &[0xcc, 200, 2]);
}

#[test]
fn name_length_counts_bytes_not_characters() {
    // Eleven characters of three bytes each: 33 bytes, past the short form.
    let name = "\u{20ac}".repeat(11);
    let bytes = record(&name, 0, 0).encode().unwrap();
    assert_eq!(&bytes[..3], &[0x93, 0xd9, 33]);
    assert_eq!(&bytes[3..36], name.as_bytes());
}

#[test]
fn encoding_twice_gives_identical_bytes() {
    let config = record("Scratch-Bot \u{1f916}", 93, 187);
    let first = config.encode().unwrap();
    let second = config.encode().unwrap();
    assert_eq!(first, second);
    assert_eq!(config.clone().encode().unwrap(), first);
}

#[test]
fn encoding_matches_struct_serialized_by_field() {
    let names = ["", "Bot", "a name of thirty-two bytes long!", "\u{7ea}i\\A"];
    let values = [0u8, 1, 127, 128, 200, 255];
    for name in names {
        for left in values {
            for right in values {
                let named = Named { ble_name: name, left_servo: left, right_servo: right };
                let expected = rmp_serde::to_vec(&named).unwrap();
                assert_eq!(record(name, left, right).encode().unwrap(), expected);
            }
        }
    }
}

#[test]
fn encoder_failure_becomes_encode_error() {
    let outcome = encoded_or_error(Err(rmp_serde::encode::Error::UnknownLength));
    let expected = "attempt to serialize struct, sequence or map with unknown length";
    assert_eq!(outcome, Err(CmdError::Encode(expected.to_string())));
}

#[test]
fn encoder_success_passes_bytes_through() {
    let outcome = encoded_or_error(Ok(vec![0x93, 0xa0, 0x00, 0x00]));
    assert_eq!(outcome, Ok(vec![0x93, 0xa0, 0x00, 0x00]));
}

#[test]
fn longest_name_is_what_32_bits_can_count() {
    assert_eq!(MAX_NAME_BYTES, u32::MAX);
}

/// A destination that takes `room` bytes and then has no memory left.
struct Limited {
    room: usize,
}

impl io::Write for Limited {
    fn write(&mut self, bytes: &[u8]) -> io::Result<usize> {
        if bytes.len() > self.room {
            return Err(io::ErrorKind::OutOfMemory.into());
        }
        self.room -= bytes.len();
        Ok(bytes.len())
    }

    fn flush(&mut self) -> io::Result<()> {
        Ok(())
    }
}

#[test]
fn failed_write_is_described_in_the_same_words_wherever_it_fails() {
    // The encoding of ("Bot", 10, 200) has eight bytes: fail before each.
    for room in 0..8 {
        let mut destination = Limited { room };
        let failure = rmp_serde::encode::write(&mut destination, &("Bot", 10u8, 200u8)).unwrap_err();
        let outcome = encoded_or_error(Err(failure));
        assert_eq!(outcome, Err(CmdError::Encode(WRITE_FAILED.to_string())));
    }
    let mut destination = Limited { room: 8 };
    assert!(rmp_serde::encode::write(&mut destination, &("Bot", 10u8, 200u8)).is_ok());
}

#[test]
fn failure_texts_are_fixed_and_differ() {
    assert_eq!(
        WRITE_FAILED,
        "invalid value write: error while writing multi-byte MessagePack value"
    );
    assert_eq!(NAME_TOO_LONG, "name is longer than a 32-bit length can express");
    assert_ne!(WRITE_FAILED, NAME_TOO_LONG);
}
