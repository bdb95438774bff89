use firmware_patch::{Config, HEADER, MAGIC};

fn record(name: String, left: u8, right: u8) -> Config {
    Config { ble_name: name, left_servo: left, right_servo: right }
}

fn find(hay: &[u8], needle: &[u8]) -> Option<usize> {
    hay.windows(needle.len()).position(|window| window == needle)
}

fn preamble() -> Vec<u8> {
    let mut bytes = HEADER.to_vec();
    bytes.extend_from_slice(&MAGIC);
    bytes
}

/// A small deterministic generator, so that the same names come every run.
fn next(state: &mut u64) -> u64 {
    *state = state.wrapping_mul(6364136223846793005).wrapping_add(1442695040888963407);
    *state >> 33
}

#[test]
fn header_never_stands_in_generated_records() {
    // Characters that put the header's own bytes into a name wherever UTF-8 allows.
    let alphabet = ['H', 'i', '\\', 'A', '\u{7f}', '\u{8a}', '\u{92}', '\u{7ea}', '\u{a692}', '\u{1f48a}'];
    let mut state = 7;
    for _ in 0..4000 {
        let length = (next(&mut state) % 40) as usize;
        let name: String =
            (0..length).map(|_| alphabet[(next(&mut state) % 10) as usize]).collect();
        let left = next(&mut state) as u8;
        let right = next(&mut state) as u8;
        let bytes = record(name, left, right).encode().unwrap();
        assert_eq!(find(&bytes, &HEADER), None);
        assert_eq!(find(&bytes, &preamble()), None);
    }
}

#[test]
fn header_never_stands_in_names_built_from_its_bytes() {
    // The longest runs of the header that are text on their own.
    let pieces = ["H", "\u{7ea}i\\A", "\u{7ea}i\\A\u{7f}", "\u{a}H", "\u{8a}H"];
    for piece in pieces {
        for repeat in 1..300 {
            for left in [0x8au8, 0x48, 0x41, 0x7f] {
                let bytes = record(piece.repeat(repeat), left, 0x8a).encode().unwrap();
                assert_eq!(find(&bytes, &HEADER), None);
            }
        }
    }
}

#[test]
fn name_that_mimics_the_header_puts_it_three_bytes_in() {
    // 0x8a4892 bytes of name, beginning with the header's last five bytes
    // and the magic marker.
    let mut name = String::from("\u{7ea}i\\A\u{7f}");
    name.push_str(&"x".repeat(0x8a_4892 - name.len()));
    assert_eq!(name.len(), 0x8a_4892);
    let bytes = record(name, 0, 0).encode().unwrap();
    assert_eq!(&bytes[..6], &[0x93, 0xdb, 0x00, 0x8a, 0x48, 0x92]);
    assert_eq!(find(&bytes, &HEADER), Some(3));
    assert_eq!(find(&bytes, &preamble()), Some(3));
}

#[test]
fn name_one_byte_short_of_the_mimic_is_clean() {
    let mut name = String::from("\u{7ea}i\\A\u{7f}");
    name.push_str(&"x".repeat(0x8a_4891 - name.len()));
    let bytes = record(name, 0, 0).encode().unwrap();
    assert_eq!(find(&bytes, &HEADER), None);
}
