//! Decisions of the boot path: finding the boot volume by its label, sizing the backup
//! framebuffer's memory object, and enabling the processor features the kernel relies on.

use crate::bits::{bit_range, u64_set_bit};
use crate::memory::{frames_needed, PAGE_SIZE};
use vstd::arithmetic::power2::pow2;
use vstd::prelude::*;
use vstd::string::StringSliceAdditionalSpecFns;

verus! {

/// The longest volume label, in bytes of UTF-8, that the loader reads.
pub const VOLUME_LABEL_MAX_LENGTH: usize = 32;

/// The bytes per pixel of the framebuffers the kernel supports (RGB32 and BGR32).
pub const BPP: u32 = 4;

/// The bit of CR4 that enables the `xsave` instruction family.
pub const CR4_XSAVE_ENABLE_BIT: usize = 18;

/// The UTF-8 encoding of one UCS-2 code unit.
pub open spec fn utf8_of_unit(unit: u16) -> Seq<u8> {
    if unit < 0x80 {
        seq![unit as u8]
    } else if unit < 0x800 {
        seq![(0xC0 + unit / 64) as u8, (0x80 + unit % 64) as u8]
    } else {
        seq![(0xE0 + unit / 4096) as u8, (0x80 + (unit / 64) % 64) as u8, (0x80 + unit % 64) as u8]
    }
}

/// The UTF-8 encoding of a UCS-2 string, unit by unit.
pub open spec fn utf8_of_ucs2(units: Seq<u16>) -> Seq<u8>
    decreases units.len(),
{
    if units.len() == 0 {
        Seq::empty()
    } else {
        utf8_of_ucs2(units.drop_last()) + utf8_of_unit(units.last())
    }
}

#[verifier::external_type_specification]
#[verifier::external_body]
pub struct ExUcs2Error(ucs2::Error);

/// Calls `ucs2::decode` with `output` as the buffer. Claimed: it succeeds exactly when the
/// UTF-8 encoding of `input` fits in the buffer; it then returns the encoding's length in
/// bytes and has written the encoding to the start of the buffer, leaving the rest alone.
/// What the buffer holds after a failure is left unsaid.
#[verifier::external_body]
fn ucs2_decode(input: &[u16], output: &mut Vec<u8>) -> (written: Result<usize, ucs2::Error>)
    ensures
        final(output)@.len() == old(output)@.len(),
        written is Ok <==> utf8_of_ucs2(input@).len() <= old(output)@.len(),
        written is Ok ==> written->Ok_0 == utf8_of_ucs2(input@).len() && final(output)@
            == utf8_of_ucs2(input@) + old(output)@.subrange(
            utf8_of_ucs2(input@).len() as int,
            old(output)@.len() as int,
        ),
{
    ucs2::decode(input, output.as_mut_slice())
}

/// Whether a UCS-2 string holds a surrogate code unit, which has no UTF-8 encoding.
pub open spec fn has_surrogate(units: Seq<u16>) -> bool {
    exists|k: int| 0 <= k < units.len() && 0xD800 <= #[trigger] units[k] < 0xE000
}

/// Whether a volume label, read as UCS-2, decodes to valid UTF-8 that fits in the loader's
/// label buffer.
pub open spec fn label_decodes(units: Seq<u16>) -> bool {
    &&& utf8_of_ucs2(units).len() <= VOLUME_LABEL_MAX_LENGTH
    &&& !has_surrogate(units)
}

/// Whether a volume label, read as UCS-2, is `label`.
pub open spec fn label_matches(units: Seq<u16>, label: Seq<u8>) -> bool {
    utf8_of_ucs2(units) == label
}

/// A label matches exactly when its UTF-8 decoding is the requested bytes, every one of
/// them: equal length and equal at every position.
pub proof fn lemma_label_matches_is_byte_equality(units: Seq<u16>, label: Seq<u8>)
    ensures
        label_matches(units, label) <==> (utf8_of_ucs2(units).len() == label.len() && forall|m: int|
            0 <= m < label.len() ==> #[trigger] utf8_of_ucs2(units)[m] == label[m]),
{
    if utf8_of_ucs2(units).len() == label.len() && forall|m: int|
        0 <= m < label.len() ==> #[trigger] utf8_of_ucs2(units)[m] == label[m] {
        assert(utf8_of_ucs2(units) =~= label);
    }
}

/// An ASCII label decodes to its own code units, one byte each.
pub proof fn lemma_ascii_label_decodes_to_itself(units: Seq<u16>)
    requires
        forall|k: int| 0 <= k < units.len() ==> #[trigger] units[k] < 0x80,
    ensures
        utf8_of_ucs2(units).len() == units.len(),
        forall|k: int| 0 <= k < units.len() ==> #[trigger] utf8_of_ucs2(units)[k] == units[k],
    decreases units.len(),
{
    if units.len() > 0 {
        let rest = units.drop_last();
        assert forall|k: int| 0 <= k < rest.len() implies #[trigger] rest[k] < 0x80 by {
            assert(rest[k] == units[k]);
        }
        lemma_ascii_label_decodes_to_itself(rest);
        assert forall|k: int| 0 <= k < units.len() implies #[trigger] utf8_of_ucs2(units)[k]
            == units[k] by {
            if k < rest.len() {
                assert(utf8_of_ucs2(units)[k] == utf8_of_ucs2(rest)[k]);
                assert(rest[k] == units[k]);
            }
        }
    }
}

/// Whether the labels before the `i`-th are all other than `label`.
pub open spec fn no_match_before(volume_labels: Seq<Vec<u16>>, label: Seq<u8>, i: int) -> bool {
    forall|j: int| 0 <= j < i ==> !label_matches(#[trigger] volume_labels[j]@, label)
}

/// Whether every label up to the first that is `label` (all of them, when none is) decodes.
pub open spec fn labels_decode_until_match(volume_labels: Seq<Vec<u16>>, label: Seq<u8>) -> bool {
    forall|i: int|
        0 <= i < volume_labels.len() && no_match_before(volume_labels, label, i) ==> label_decodes(
            #[trigger] volume_labels[i]@,
        )
}

/// Finds the volume whose label is `label`, given the labels of the volumes in the order in
/// which the firmware lists them: the index of the first that matches, or `None`. The loader
/// panics on a label that it cannot decode before it reaches a match, which the `requires`
/// keeps out.
pub fn find_volume(volume_labels: &Vec<Vec<u16>>, label: &str) -> (found: Option<usize>)
    requires
        labels_decode_until_match(volume_labels@, label.spec_bytes()),
    ensures
        match found {
            Some(i) => i < volume_labels@.len() && label_matches(volume_labels@[i as int]@, label.spec_bytes())
                && no_match_before(volume_labels@, label.spec_bytes(), i as int),
            None => no_match_before(volume_labels@, label.spec_bytes(), volume_labels@.len() as int),
        },
        found matches Some(i) ==> utf8_of_ucs2(volume_labels@[i as int]@) == label.spec_bytes(),
        forall|j: int|
            0 <= j < volume_labels@.len() && (found matches Some(i) ==> j < i) ==> utf8_of_ucs2(
                #[trigger] volume_labels@[j]@,
            ) != label.spec_bytes(),
{
    match try_find_volume(volume_labels, label) {
        Some(found) => found,
        None => {
            proof {
                assert(false);
            }
            None
        },
    }
}

/// Finds the volume whose label is `label` as `find_volume` does, and says when a label
/// before the first match cannot be decoded (where the loader panics): `None` exactly then,
/// and otherwise `Some` of what `find_volume` returns.
pub fn try_find_volume(volume_labels: &Vec<Vec<u16>>, label: &str) -> (found: Option<Option<usize>>)
    ensures
        found is None <==> !labels_decode_until_match(volume_labels@, label.spec_bytes()),
        found matches Some(Some(i)) ==> i < volume_labels@.len() && label_matches(
            volume_labels@[i as int]@,
            label.spec_bytes(),
        ) && no_match_before(volume_labels@, label.spec_bytes(), i as int),
        found == Some(None::<usize>) ==> no_match_before(
            volume_labels@,
            label.spec_bytes(),
            volume_labels@.len() as int,
        ),
        found matches Some(Some(i)) ==> utf8_of_ucs2(volume_labels@[i as int]@) == label.spec_bytes(),
        forall|j: int|
            0 <= j < volume_labels@.len() && (found matches Some(r) && (r matches Some(i) ==> j < i))
                ==> utf8_of_ucs2(#[trigger] volume_labels@[j]@) != label.spec_bytes(),
{
    let wanted = label.as_bytes();
    let ghost labels = volume_labels@;
    let ghost bytes = label.spec_bytes();
    let mut i: usize = 0;
    while i < volume_labels.len()
        invariant
            i <= labels.len(),
            labels == volume_labels@,
            bytes == label.spec_bytes(),
            wanted@ == bytes,
            no_match_before(labels, bytes, i as int),
            forall|k: int| 0 <= k < i ==> label_decodes(#[trigger] labels[k]@),
        decreases labels.len() - i,
    {
        let units = volume_labels[i].as_slice();
        let mut u: usize = 0;
        while u < units.len()
            invariant
                u <= units@.len(),
                i < labels.len(),
                labels == volume_labels@,
                bytes == label.spec_bytes(),
                no_match_before(labels, bytes, i as int),
                units@ == labels[i as int]@,
                forall|m: int| 0 <= m < u ==> !(0xD800 <= #[trigger] units@[m] < 0xE000),
            decreases units@.len() - u,
        {
            if 0xD800 <= units[u] && units[u] < 0xE000 {
                assert(has_surrogate(units@));
                assert(!label_decodes(labels[i as int]@));
                return None;
            }
            u = u + 1;
        }
        assert(!has_surrogate(units@));
        let mut buffer: Vec<u8> = Vec::new();
        while buffer.len() < VOLUME_LABEL_MAX_LENGTH
            invariant
                buffer.len() <= VOLUME_LABEL_MAX_LENGTH,
            decreases VOLUME_LABEL_MAX_LENGTH - buffer.len(),
        {
            buffer.push(0u8);
        }
        let length = match ucs2_decode(units, &mut buffer) {
            Ok(length) => length,
            Err(_) => {
                assert(!label_decodes(labels[i as int]@));
                return None;
            },
        };
        assert(label_decodes(labels[i as int]@));
        let ghost decoded = utf8_of_ucs2(units@);
        assert(buffer@.subrange(0, length as int) =~= decoded);
        let mut same = length == wanted.len();
        let mut k: usize = 0;
        while same && k < length
            invariant
                k <= length <= buffer@.len(),
                same ==> length == wanted@.len(),
                same ==> forall|m: int| 0 <= m < k ==> buffer@[m] == wanted@[m],
                !same ==> decoded != wanted@,
                buffer@.subrange(0, length as int) == decoded,
            decreases length - k,
        {
            if buffer[k] != wanted[k] {
                assert(decoded[k as int] == buffer@[k as int]);
                same = false;
            }
            k = k + 1;
        }
        if same {
            assert(decoded =~= wanted@);
            assert forall|j: int|
                0 <= j < labels.len() && no_match_before(labels, bytes, j) implies label_decodes(
                #[trigger] labels[j]@,
            ) by {
                if j > i {
                    assert(label_matches(labels[i as int]@, bytes));
                }
            }
            return Some(Some(i));
        }
        i = i + 1;
    }
    Some(None)
}

/// The number of pages of the memory object that backs a framebuffer of `height` rows of
/// `stride` pixels of `BPP` bytes. The byte count is computed in 32 bits; a framebuffer too
/// large for that overflows, on which the kernel panics: the `requires` keeps it out.
pub fn framebuffer_pages(stride: u32, height: u32) -> (pages: usize)
    requires
        stride * height * BPP <= u32::MAX,
    ensures
        pages * PAGE_SIZE >= stride * height * BPP,
        pages * PAGE_SIZE < stride * height * BPP + PAGE_SIZE,
{
    let size_in_bytes = (stride * height * BPP) as usize;
    frames_needed(size_in_bytes)
}

/// The value of CR4 with the `xsave` enable bit set and every other bit as in `cr4`.
pub fn cr4_with_xsave_enabled(cr4: u64) -> (enabled: u64)
    ensures
        bit_range(enabled as nat, CR4_XSAVE_ENABLE_BIT as nat, CR4_XSAVE_ENABLE_BIT as nat + 1) == 1,
        enabled as nat % pow2(CR4_XSAVE_ENABLE_BIT as nat) == cr4 as nat % pow2(
            CR4_XSAVE_ENABLE_BIT as nat,
        ),
        enabled as nat / pow2(CR4_XSAVE_ENABLE_BIT as nat + 1) == cr4 as nat / pow2(
            CR4_XSAVE_ENABLE_BIT as nat + 1,
        ),
{
    let mut enabled = cr4;
    u64_set_bit(&mut enabled, CR4_XSAVE_ENABLE_BIT, true);
    enabled
}

} // verus!
