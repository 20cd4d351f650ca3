//! Pure bitfield arithmetic shared by every register accessor.
//!
//! A field of a 32-bit register is described by a bit offset (`shift`) and a
//! bit width.  Reading a field extracts and right-aligns its bits; writing a
//! field replaces exactly its bits and leaves every other bit of the
//! register unchanged.  Little-endian packing of 32-bit words into bytes,
//! used by the DMA descriptor, lives here as well.

use vstd::prelude::*;

verus! {

/// The `width` lowest bits set.
pub open spec fn spec_low_mask(width: u32) -> u32
    recommends
        width <= 32,
{
    if width == 32 {
        0xFFFF_FFFFu32
    } else {
        ((1u32 << width) - 1) as u32
    }
}

/// The mask covering a field of `width` bits starting at bit `shift`.
pub open spec fn spec_field_mask(shift: u32, width: u32) -> u32
    recommends
        shift + width <= 32,
{
    spec_low_mask(width) << shift
}

/// The value of the (`shift`, `width`) field of `reg`, right-aligned.
pub open spec fn spec_get_field(reg: u32, shift: u32, width: u32) -> u32
    recommends
        1 <= width,
        shift + width <= 32,
{
    (reg >> shift) & spec_low_mask(width)
}

/// `reg` with the (`shift`, `width`) field replaced by `value`, truncated
/// to the field's width; all other bits are those of `reg`.
pub open spec fn spec_set_field(reg: u32, shift: u32, width: u32, value: u32) -> u32
    recommends
        1 <= width,
        shift + width <= 32,
{
    (reg & !spec_field_mask(shift, width)) | ((value & spec_low_mask(width)) << shift)
}

/// The `width` lowest bits set.
pub fn low_mask(width: u32) -> (m: u32)
    requires
        width <= 32,
    ensures
        m == spec_low_mask(width),
{
    if width == 32 {
        0xFFFF_FFFFu32
    } else {
        assert(1u32 << width >= 1) by (bit_vector)
            requires
                width < 32,
        ;
        (1u32 << width) - 1
    }
}

/// The mask covering a field of `width` bits starting at bit `shift`.
pub fn field_mask(shift: u32, width: u32) -> (m: u32)
    requires
        1 <= width,
        shift + width <= 32,
    ensures
        m == spec_field_mask(shift, width),
{
    low_mask(width) << shift
}

/// Extract the (`shift`, `width`) field of `reg`.
pub fn get_field(reg: u32, shift: u32, width: u32) -> (v: u32)
    requires
        1 <= width,
        shift + width <= 32,
    ensures
        v == spec_get_field(reg, shift, width),
{
    (reg >> shift) & low_mask(width)
}

/// Replace the (`shift`, `width`) field of `reg` by `value`.
pub fn set_field(reg: u32, shift: u32, width: u32, value: u32) -> (r: u32)
    requires
        1 <= width,
        shift + width <= 32,
    ensures
        r == spec_set_field(reg, shift, width, value),
{
    (reg & !field_mask(shift, width)) | ((value & low_mask(width)) << shift)
}

/// Setting a field and reading it back yields the written value, masked to
/// the field's width.
pub proof fn lemma_field_round_trip(reg: u32, shift: u32, width: u32, value: u32)
    requires
        1 <= width,
        shift + width <= 32,
    ensures
        spec_get_field(spec_set_field(reg, shift, width, value), shift, width)
            == value & spec_low_mask(width),
{
    assert(spec_get_field(spec_set_field(reg, shift, width, value), shift, width)
        == value & spec_low_mask(width)) by (bit_vector)
        requires
            1 <= width,
            shift + width <= 32,
    ;
}

/// Setting a field leaves every bit outside the field's mask unchanged.
pub proof fn lemma_set_field_preserves_others(reg: u32, shift: u32, width: u32, value: u32)
    requires
        1 <= width,
        shift + width <= 32,
    ensures
        spec_set_field(reg, shift, width, value) & !spec_field_mask(shift, width)
            == reg & !spec_field_mask(shift, width),
{
    assert(spec_set_field(reg, shift, width, value) & !spec_field_mask(shift, width)
        == reg & !spec_field_mask(shift, width)) by (bit_vector)
        requires
            1 <= width,
            shift + width <= 32,
    ;
}

/// An extracted field never exceeds its width's mask.
pub proof fn lemma_get_field_bounded(shift: u32, width: u32)
    requires
        1 <= width,
        shift + width <= 32,
    ensures
        forall|raw: u32| #[trigger]
            spec_get_field(raw, shift, width) <= spec_low_mask(width),
{
    assert(forall|raw: u32| #[trigger]
        spec_get_field(raw, shift, width) <= spec_low_mask(width)) by (bit_vector)
        requires
            1 <= width,
            shift + width <= 32,
    ;
}

/// A field of at most eight bits fits in a byte.
pub proof fn lemma_low_mask_byte(width: u32)
    requires
        1 <= width <= 8,
    ensures
        spec_low_mask(width) < 256,
{
    assert(spec_low_mask(width) < 256) by (bit_vector)
        requires
            1 <= width <= 8,
    ;
}

/// The little-endian byte layout of a 32-bit word.
pub open spec fn spec_le_bytes(v: u32) -> Seq<u8> {
    seq![
        (v & 0xFF) as u8,
        ((v >> 8) & 0xFF) as u8,
        ((v >> 16) & 0xFF) as u8,
        ((v >> 24) & 0xFF) as u8,
    ]
}

/// The 32-bit word read from four little-endian bytes.
pub open spec fn spec_u32_of_le(b0: u8, b1: u8, b2: u8, b3: u8) -> u32 {
    (b0 as u32) | ((b1 as u32) << 8) | ((b2 as u32) << 16) | ((b3 as u32) << 24)
}

/// Packing a word into little-endian bytes and reading them back yields the
/// word.
pub proof fn lemma_le_round_trip(v: u32)
    ensures
        spec_u32_of_le(
            (v & 0xFF) as u8,
            ((v >> 8) & 0xFF) as u8,
            ((v >> 16) & 0xFF) as u8,
            ((v >> 24) & 0xFF) as u8,
        ) == v,
{
    assert(((v & 0xFF) as u8 as u32) | ((((v >> 8) & 0xFF) as u8 as u32) << 8)
        | ((((v >> 16) & 0xFF) as u8 as u32) << 16) | ((((v >> 24) & 0xFF) as u8 as u32) << 24)
        == v) by (bit_vector);
}

} // verus!
