//! Where the boot code's scan can and cannot find the header.
//!
//! The firmware looks for its configuration by scanning flash for the header
//! and then checking the magic marker. The scan is only safe if the header
//! does not turn up inside the encoded record itself. This module settles
//! exactly when it does.

use vstd::prelude::*;
use vstd::utf8::{
    encode_utf8_valid_utf8, is_continuation_byte, length_of_first_scalar, pop_first_scalar,
    valid_first_scalar, valid_utf8,
};
use crate::layout::{header_bytes, preamble};
use crate::record::{
    array_of_three, record_encoding, str_prefix, uint8_encoding, ConfigView, MAX_NAME_BYTES,
};

verus! {

/// Whether `needle` stands in `hay` at offset `at`.
pub open spec fn occurs_at(hay: Seq<u8>, needle: Seq<u8>, at: int) -> bool {
    &&& 0 <= at
    &&& at + needle.len() <= hay.len()
    &&& hay.subrange(at, at + needle.len()) == needle
}

/// Whether `needle` stands anywhere in `hay`.
pub open spec fn occurs(hay: Seq<u8>, needle: Seq<u8>) -> bool {
    exists|at: int| occurs_at(hay, needle, at)
}

/// The one shape of name whose encoding spells out the header: its length,
/// written in 32 bits, ends in the header's first three bytes, and its text
/// begins with the header's other five.
pub open spec fn mimics_header(name: Seq<u8>) -> bool {
    &&& name.len() % 0x100_0000 == 0x8a_4892
    &&& name.subrange(0, 5) == seq![0xdfu8, 0xaau8, 0x69u8, 0x5cu8, 0x41u8]
}

/// In UTF-8 a continuation byte never opens a text and never follows an
/// ASCII byte.
pub proof fn lemma_continuation_follows_multibyte(bytes: Seq<u8>, j: int)
    requires
        valid_utf8(bytes),
        0 <= j < bytes.len(),
        is_continuation_byte(bytes[j]),
    ensures
        j >= 1,
        bytes[j - 1] >= 0x80,
    decreases bytes.len(),
{
    let first = length_of_first_scalar(bytes);
    assert(valid_first_scalar(bytes));
    if j >= first {
        let rest = pop_first_scalar(bytes);
        assert(rest[j - first] == bytes[j]);
        lemma_continuation_follows_multibyte(rest, j - first);
        assert(rest[j - first - 1] == bytes[j - 1]);
    }
}

/// The header stands in a record's encoding at offset `at` exactly when `at`
/// is 3 and the name mimics the header.
pub proof fn lemma_header_in_encoding(name: Seq<u8>, left: u8, right: u8, at: int)
    requires
        valid_utf8(name),
        name.len() <= MAX_NAME_BYTES,
    ensures
        occurs_at(record_encoding(name, left, right), header_bytes(), at) <==> (at == 3
            && mimics_header(name)),
{
    let n = name.len();
    let prefix = str_prefix(n);
    let tail = uint8_encoding(left) + uint8_encoding(right);
    let enc = record_encoding(name, left, right);
    let start = 1 + prefix.len();
    let end = start + n;
    let header = header_bytes();
    assert(enc =~= array_of_three() + prefix + name + tail);
    assert(enc.len() == end + tail.len());
    assert(tail.len() <= 4);
    assert(enc[0] == 0x93);
    assert(enc[1] == prefix[0]);
    assert(forall|i: int| start <= i < end ==> enc[i] == name[i - start]);
    assert(forall|i: int| 1 <= i < start ==> enc[i] == prefix[i - 1]);
    if occurs_at(enc, header, at) {
        let window = enc.subrange(at, at + 8);
        assert(forall|k: int| 0 <= k < 8 ==> enc[at + k] == #[trigger] window[k]);
        assert(window[0] == 0x8a && window[1] == 0x48 && window[2] == 0x92 && window[3] == 0xdf
            && window[4] == 0xaa && window[5] == 0x69 && window[6] == 0x5c && window[7] == 0x41);
        assert(at >= 2);
        assert(at + 2 < end);
        if at + 1 >= start {
            lemma_continuation_follows_multibyte(name, at + 2 - start);
            assert(false);
        } else if at + 2 == start {
            lemma_continuation_follows_multibyte(name, 0);
            assert(false);
        } else {
            assert(start == 6);
            assert(n >= 0x1_0000);
            if at == 2 {
                assert(enc[6] == window[4]);
                lemma_continuation_follows_multibyte(name, 0);
                assert(false);
            }
            assert(at == 3);
            assert(enc[3] == window[0] && enc[4] == window[1] && enc[5] == window[2]);
            assert(n / 0x1_0000 % 0x100 == 0x8a);
            assert(n / 0x100 % 0x100 == 0x48);
            assert(n % 0x100 == 0x92);
            assert(n % 0x100_0000 == 0x8a_4892);
            assert(enc[6] == window[3] && enc[7] == window[4] && enc[8] == window[5] && enc[9]
                == window[6] && enc[10] == window[7]);
            assert(name.subrange(0, 5) =~= seq![0xdfu8, 0xaau8, 0x69u8, 0x5cu8, 0x41u8]);
        }
    }
    if at == 3 && mimics_header(name) {
        let lead = name.subrange(0, 5);
        assert(lead[0] == 0xdf && lead[1] == 0xaa && lead[2] == 0x69 && lead[3] == 0x5c && lead[4]
            == 0x41);
        assert(n >= 0x8a_4892);
        assert(start == 6);
        assert(n / 0x1_0000 % 0x100 == 0x8a);
        assert(n / 0x100 % 0x100 == 0x48);
        assert(n % 0x100 == 0x92);
        assert(enc.subrange(3, 11) =~= header);
    }
}

/// A name that mimics the whole preamble: it mimics the header and goes on
/// with the magic marker.
pub open spec fn mimics_preamble(name: Seq<u8>) -> bool {
    &&& mimics_header(name)
    &&& name[5] == 0x7f
}

/// The preamble stands in a record's encoding at offset `at` exactly when
/// `at` is 3 and the name mimics the preamble.
pub proof fn lemma_preamble_in_encoding(name: Seq<u8>, left: u8, right: u8, at: int)
    requires
        valid_utf8(name),
        name.len() <= MAX_NAME_BYTES,
    ensures
        occurs_at(record_encoding(name, left, right), preamble(), at) <==> (at == 3
            && mimics_preamble(name)),
{
    let n = name.len();
    let enc = record_encoding(name, left, right);
    let tail = uint8_encoding(left) + uint8_encoding(right);
    assert(enc =~= array_of_three() + str_prefix(n) + name + tail);
    lemma_header_in_encoding(name, left, right, at);
    if occurs_at(enc, preamble(), at) {
        let window = enc.subrange(at, at + 9);
        assert(window.subrange(0, 8) =~= header_bytes());
        assert(enc.subrange(at, at + 8) =~= window.subrange(0, 8));
        assert(occurs_at(enc, header_bytes(), at));
        assert(enc[11] == window[8]);
        assert(enc[11] == name[5]);
    }
    if at == 3 && mimics_preamble(name) {
        assert(occurs_at(enc, header_bytes(), 3));
        assert(enc[11] == name[5]);
        assert(enc.subrange(3, 12) =~= enc.subrange(3, 11) + seq![enc[11]]);
        assert(enc.subrange(3, 12) =~= preamble());
    }
}

/// The header never stands inside the encoding of a record, unless the
/// record's name mimics it. The boot code's scan therefore stops at the
/// header that was appended and at no place inside the record.
pub proof fn header_absent_from_encoding(record: ConfigView)
    requires
        record.encodable(),
        !mimics_header(record.name_bytes()),
    ensures
        !occurs(record.encoding(), header_bytes()),
{
    encode_utf8_valid_utf8(record.ble_name);
    assert forall|at: int| !occurs_at(record.encoding(), header_bytes(), at) by {
        lemma_header_in_encoding(record.name_bytes(), record.left_servo, record.right_servo, at);
    }
}

/// The preamble, header and magic marker together, never stands inside the
/// encoding of a record, unless the record's name mimics it.
pub proof fn preamble_absent_from_encoding(record: ConfigView)
    requires
        record.encodable(),
        !mimics_preamble(record.name_bytes()),
    ensures
        !occurs(record.encoding(), preamble()),
{
    encode_utf8_valid_utf8(record.ble_name);
    assert forall|at: int| !occurs_at(record.encoding(), preamble(), at) by {
        lemma_preamble_in_encoding(record.name_bytes(), record.left_servo, record.right_servo, at);
    }
}

/// A name that mimics the header does put it into the encoding, three bytes
/// in: the exception above leaves out no record that it need not.
pub proof fn header_present_in_mimic(record: ConfigView)
    requires
        record.encodable(),
        mimics_header(record.name_bytes()),
    ensures
        occurs_at(record.encoding(), header_bytes(), 3),
        mimics_preamble(record.name_bytes()) ==> occurs_at(record.encoding(), preamble(), 3),
{
    encode_utf8_valid_utf8(record.ble_name);
    lemma_header_in_encoding(record.name_bytes(), record.left_servo, record.right_servo, 3);
    lemma_preamble_in_encoding(record.name_bytes(), record.left_servo, record.right_servo, 3);
}

/// No name shorter than 9,062,546 bytes mimics the header, so for every
/// name a device can hold neither header nor preamble stands in the encoding.
pub proof fn header_absent_for_short_names(record: ConfigView)
    requires
        record.name_bytes().len() < 0x8a_4892,
    ensures
        !occurs(record.encoding(), header_bytes()),
        !occurs(record.encoding(), preamble()),
{
    header_absent_from_encoding(record);
    preamble_absent_from_encoding(record);
}

} // verus!
