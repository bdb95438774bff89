//! The byte layout of the block appended to a firmware image.

use vstd::prelude::*;

verus! {

/// The header the boot code scans flash for.
pub const HEADER: [u8; 8] = [0x8a, 0x48, 0x92, 0xdf, 0xaa, 0x69, 0x5c, 0x41];

/// The marker that identifies the payload format.
pub const MAGIC: [u8; 1] = [0x7f];

/// The header as a sequence of bytes.
pub open spec fn header_bytes() -> Seq<u8> {
    HEADER@
}

/// The magic marker as a sequence of bytes.
pub open spec fn magic_bytes() -> Seq<u8> {
    MAGIC@
}

/// Everything that precedes the encoded record in the appended block.
pub open spec fn preamble() -> Seq<u8> {
    header_bytes() + magic_bytes()
}

/// A configured image: the unconfigured image, untouched, then the header, the
/// magic marker and the encoded record.
pub open spec fn configured(image: Seq<u8>, encoded: Seq<u8>) -> Seq<u8> {
    image + header_bytes() + magic_bytes() + encoded
}

/// What a destination holds once a configured image has been written to it.
/// The write replaces: nothing of what the destination held before is left.
pub open spec fn written(previous: Seq<u8>, image: Seq<u8>, encoded: Seq<u8>) -> Seq<u8> {
    configured(image, encoded)
}

/// Replaces whatever `dst` held with the configured image.
pub fn overwrite(dst: &mut Vec<u8>, image: &[u8], encoded: &[u8])
    ensures
        final(dst)@ == written(old(dst)@, image@, encoded@),
        final(dst)@ == configured(image@, encoded@),
{
    dst.clear();
    dst.extend_from_slice(image);
    dst.extend_from_slice(&HEADER);
    dst.extend_from_slice(&MAGIC);
    dst.extend_from_slice(encoded);
}

/// A configured image is the image, byte for byte, then the nine bytes of
/// the preamble, then the encoded record, and nothing else.
pub proof fn configured_layout(image: Seq<u8>, encoded: Seq<u8>)
    ensures
        ({
            let whole = configured(image, encoded);
            let block = image.len() as int;
            let record = block + 9;
            &&& whole.len() == record + encoded.len()
            &&& whole.subrange(0, block) == image
            &&& whole.subrange(block, record) == preamble()
            &&& whole.subrange(record, record + encoded.len()) == encoded
        }),
{
    let whole = configured(image, encoded);
    let block = image.len() as int;
    let record = block + 9;
    assert(whole =~= image + preamble() + encoded);
    assert(whole.subrange(0, block) =~= image);
    assert(whole.subrange(block, record) =~= preamble());
    assert(whole.subrange(record, record + encoded.len()) =~= encoded);
}

/// Writing a second configured image where a first one stood leaves the
/// second alone: its length owes nothing to the record written first.
pub proof fn rewrite_replaces(previous: Seq<u8>, image: Seq<u8>, first: Seq<u8>, second: Seq<u8>)
    ensures
        written(written(previous, image, first), image, second) == configured(image, second),
        written(written(previous, image, first), image, second).len() == image.len() + 9
            + second.len(),
{
    configured_layout(image, second);
}

/// Two configured images of one image agree up to the end of the preamble,
/// whatever the records: a change of record shows in the tail only.
pub proof fn record_changes_only_the_tail(image: Seq<u8>, first: Seq<u8>, second: Seq<u8>)
    ensures
        ({
            let record = image.len() as int + 9;
            configured(image, first).subrange(0, record) == configured(image, second).subrange(
                0,
                record,
            )
        }),
{
    let record = image.len() as int + 9;
    assert(configured(image, first).subrange(0, record) =~= image + preamble());
    assert(configured(image, second).subrange(0, record) =~= image + preamble());
}

} // verus!
