//! The configuration record and its positional MessagePack encoding.
//!
//! The record is written as an array of exactly three elements, in the order
//! name, left calibration, right calibration. The firmware walks the array by
//! position, so the order of the fields is the schema: adding, removing or
//! reordering a field breaks every device that was built against the old
//! order.

use vstd::prelude::*;
use vstd::string::StringExecFns;
use vstd::string::StringSliceAdditionalSpecFns;
use vstd::utf8::encode_utf8;
use crate::error::CmdError;

verus! {

/// The settings embedded into a firmware image.
#[derive(Debug, PartialEq, Eq)]
pub struct Config {
    /// The name the device advertises over Bluetooth.
    pub ble_name: String,
    /// Calibration of the left servo.
    pub left_servo: u8,
    /// Calibration of the right servo.
    pub right_servo: u8,
}

/// What a [`Config`] holds, as mathematical values.
pub struct ConfigView {
    pub ble_name: Seq<char>,
    pub left_servo: u8,
    pub right_servo: u8,
}

impl View for Config {
    type V = ConfigView;

    open spec fn view(&self) -> ConfigView {
        ConfigView {
            ble_name: self.ble_name@,
            left_servo: self.left_servo,
            right_servo: self.right_servo,
        }
    }
}

impl Clone for Config {
    fn clone(&self) -> (copy: Self)
        ensures
            copy@ == self@,
    {
        Config {
            ble_name: self.ble_name.clone(),
            left_servo: self.left_servo,
            right_servo: self.right_servo,
        }
    }
}

/// The longest name, in bytes, whose length the encoding can express.
pub const MAX_NAME_BYTES: u32 = 0xffff_ffff;

/// The first byte of the encoding: an array of three elements.
pub open spec fn array_of_three() -> Seq<u8> {
    seq![0x93u8]
}

/// The bytes that announce a string of `len` bytes: the shortest of the four
/// forms that can hold `len`, with the length in big-endian order.
pub open spec fn str_prefix(len: nat) -> Seq<u8>
    recommends
        len <= MAX_NAME_BYTES,
{
    if len < 32 {
        seq![(0xa0 + len) as u8]
    } else if len < 0x100 {
        seq![0xd9u8, len as u8]
    } else if len < 0x1_0000 {
        seq![0xdau8, (len / 0x100) as u8, (len % 0x100) as u8]
    } else {
        seq![
            0xdbu8,
            (len / 0x100_0000) as u8,
            (len / 0x1_0000 % 0x100) as u8,
            (len / 0x100 % 0x100) as u8,
            (len % 0x100) as u8,
        ]
    }
}

/// An unsigned byte in its shortest form: itself below 128, else behind the
/// marker `0xcc`.
pub open spec fn uint8_encoding(value: u8) -> Seq<u8> {
    if value < 0x80 {
        seq![value]
    } else {
        seq![0xccu8, value]
    }
}

/// The whole record: the array marker, the name as a string, then the two
/// calibration values.
pub open spec fn record_encoding(name: Seq<u8>, left: u8, right: u8) -> Seq<u8> {
    array_of_three() + str_prefix(name.len()) + name + uint8_encoding(left) + uint8_encoding(right)
}

impl ConfigView {
    /// The name in UTF-8.
    pub open spec fn name_bytes(self) -> Seq<u8> {
        encode_utf8(self.ble_name)
    }

    /// Whether the encoding can express the length of the name.
    pub open spec fn encodable(self) -> bool {
        self.name_bytes().len() <= MAX_NAME_BYTES
    }

    /// The record's encoding.
    pub open spec fn encoding(self) -> Seq<u8>
        recommends
            self.encodable(),
    {
        record_encoding(self.name_bytes(), self.left_servo, self.right_servo)
    }
}

/// What the failure says when a name is too long to encode.
pub const NAME_TOO_LONG: &'static str = "name is longer than a 32-bit length can express";

/// The text of the failure reported for a name that is too long to encode.
pub open spec fn name_too_long() -> Seq<char> {
    NAME_TOO_LONG@
}

/// What the encoder says of a write that it could not complete.
pub const WRITE_FAILED: &'static str =
    "invalid value write: error while writing multi-byte MessagePack value";

/// The text of the failure reported when the encoder could not write.
pub open spec fn write_failed() -> Seq<char> {
    WRITE_FAILED@
}

/// The two failures of encoding can be told apart by their text.
pub proof fn lemma_failures_differ()
    ensures
        name_too_long() != write_failed(),
{
    reveal_strlit("name is longer than a 32-bit length can express");
    reveal_strlit("invalid value write: error while writing multi-byte MessagePack value");
    assert(name_too_long()[0] == 'n');
    assert(write_failed()[0] == 'i');
}

/// `rmp_serde::encode::Error`, the encoder's own failure. It is carried from
/// the encoder to [`encoded_or_error`] and never looked into.
#[verifier::external_type_specification]
#[verifier::external_body]
pub struct ExEncodeError(rmp_serde::encode::Error);

/// `rmp_serde::to_vec` on the tuple `(name, left, right)`.
///
/// Trusted: when the call succeeds, the bytes are the array marker for three
/// elements, the name as a MessagePack string and each calibration value as a
/// MessagePack unsigned integer, every length and value in its shortest form.
/// The encoder stores a string's length in 32 bits, so longer names are kept
/// away from it. Nothing is claimed about when the call succeeds: the encoder
/// reports a failure when it cannot get memory for its output. That is the
/// only way this call fails: a string and two bytes in a tuple give the
/// encoder nothing else to refuse, so every failure is a failed write, and
/// the encoder describes every failed write in the same words,
/// [`WRITE_FAILED`].
#[verifier::external_body]
fn to_msgpack(name: &str, left: u8, right: u8) -> (r: Result<Vec<u8>, rmp_serde::encode::Error>)
    requires
        name.spec_bytes().len() <= MAX_NAME_BYTES,
    ensures
        r matches Ok(bytes) ==> bytes@ == record_encoding(name.spec_bytes(), left, right),
        r matches Err(e) ==> forall|s: String| #[trigger]
            vstd::string::to_string_from_display_ensures::<rmp_serde::encode::Error>(&e, s) ==> s@
                == write_failed(),
{
    rmp_serde::to_vec(&(name, left, right))
}

/// Turns the encoder's outcome into the library's: the bytes as they are, or
/// an [`CmdError::Encode`] that carries the encoder's description, word for
/// word.
pub fn encoded_or_error(outcome: Result<Vec<u8>, rmp_serde::encode::Error>) -> (r: Result<
    Vec<u8>,
    CmdError,
>)
    ensures
        match outcome {
            Ok(bytes) => r == Ok::<Vec<u8>, CmdError>(bytes),
            Err(error) => r matches Err(CmdError::Encode(cause))
                && vstd::string::to_string_from_display_ensures::<rmp_serde::encode::Error>(
                &error,
                cause,
            ),
        },
{
    match outcome {
        Ok(bytes) => Ok(bytes),
        Err(error) => Err(CmdError::Encode(error.to_string())),
    }
}

impl Config {
    /// Encodes the record.
    ///
    /// A name of more than [`MAX_NAME_BYTES`] bytes is refused with
    /// [`NAME_TOO_LONG`], and no other record is. Any other record either
    /// encodes to exactly [`ConfigView::encoding`] or, if the encoder cannot
    /// write, fails with [`WRITE_FAILED`].
    pub fn encode(&self) -> (r: Result<Vec<u8>, CmdError>)
        ensures
            match r {
                Ok(bytes) => self@.encodable() && bytes@ == self@.encoding(),
                Err(e) => e is Encode,
            },
            !self@.encodable() ==> (r matches Err(CmdError::Encode(cause)) && cause@
                == name_too_long()),
            (r matches Err(CmdError::Encode(cause)) && cause@ == name_too_long())
                ==> !self@.encodable(),
            self@.encodable() ==> (r is Ok || (r matches Err(CmdError::Encode(cause)) && cause@
                == write_failed())),
    {
        proof {
            lemma_failures_differ();
        }
        let name = self.ble_name.as_str();
        if name.as_bytes().len() > MAX_NAME_BYTES as usize {
            return Err(CmdError::Encode(String::from_str(NAME_TOO_LONG)));
        }
        encoded_or_error(to_msgpack(name, self.left_servo, self.right_servo))
    }
}

/// Encoding is a function of the record's fields: records that hold the same
/// name and calibration values encode to the same bytes, call after call.
pub proof fn encoding_is_deterministic(first: Config, second: Config)
    requires
        first@ == second@,
    ensures
        first@.encoding() == second@.encoding(),
{
}

/// Two records with one name encode alike up to the end of the name: the
/// calibration values show in the bytes after it and nowhere else.
pub proof fn calibration_changes_only_the_end(first: ConfigView, second: ConfigView)
    requires
        first.ble_name == second.ble_name,
    ensures
        ({
            let name = first.name_bytes();
            let shared = 1 + str_prefix(name.len()).len() as int + name.len();
            first.encoding().subrange(0, shared) == second.encoding().subrange(0, shared)
        }),
{
    let name = first.name_bytes();
    let head = array_of_three() + str_prefix(name.len()) + name;
    let shared = 1 + str_prefix(name.len()).len() as int + name.len();
    assert(first.encoding().subrange(0, shared) =~= head);
    assert(second.encoding().subrange(0, shared) =~= head);
}

} // verus!
