//! Packed block identifiers.

use vstd::prelude::*;

verus! {

/// The 64-bit word that stands for the four fields of a block identifier:
/// `[ registry id (32 bits) | reserved (18 bits) | render_mode (2) | solid_sides (6) | shape (6) ]`.
/// Each small field is truncated to its width.
pub open spec fn packed_bits(registry_id: u32, shape_id: u8, solid_sides: u8, render_mode: u8) -> u64 {
    ((registry_id as u64) << 32u64) | ((shape_id as u64) & 0x3f) | (((solid_sides as u64) & 0x3f) << 6u64)
        | (((render_mode as u64) & 0x3) << 12u64)
}

/// Registry ID field of a packed word.
pub open spec fn registry_id_field(bits: u64) -> u32 {
    (bits >> 32u64) as u32
}

/// Shape field of a packed word.
pub open spec fn shape_id_field(bits: u64) -> u8 {
    (bits & 0x3f) as u8
}

/// Solid-sides field of a packed word.
pub open spec fn solid_sides_field(bits: u64) -> u8 {
    ((bits >> 6u64) & 0x3f) as u8
}

/// Render-mode field of a packed word.
pub open spec fn render_mode_field(bits: u64) -> u8 {
    ((bits >> 12u64) & 0x3) as u8
}

/// A block identifier that uniquely identifies a registered block variant.
/// Besides the registry ID it caches a few properties of the block so that hot
/// paths need no registry lookup; those cached bits must be validated against
/// the registry whenever an identifier is read back from storage.
#[derive(Copy, Clone, Default, PartialEq, Eq, Structural, PartialOrd, Ord, Hash, Debug)]
pub struct BlockId(u64);

impl View for BlockId {
    type V = u64;

    closed spec fn view(&self) -> u64 {
        self.0
    }
}

impl BlockId {
    /// Packs the four fields into one identifier. `shape_id` and `solid_sides`
    /// are truncated to 6 bits, `render_mode` to 2 bits.
    pub fn from_bits(registry_id: u32, shape_id: u8, solid_sides: u8, render_mode: u8) -> (r: Self)
        ensures
            r@ == packed_bits(registry_id, shape_id, solid_sides, render_mode),
    {
        BlockId(
            ((registry_id as u64) << 32u64) | ((shape_id as u64) & 0x3f) | (((solid_sides as u64)
                & 0x3f) << 6u64) | (((render_mode as u64) & 0x3) << 12u64),
        )
    }

    /// The raw 64-bit word.
    pub fn to_bits(self) -> (r: u64)
        ensures
            r == self@,
    {
        self.0
    }

    /// The identifier whose raw 64-bit word is `bits`.
    pub fn from_raw(bits: u64) -> (r: Self)
        ensures
            r@ == bits,
    {
        BlockId(bits)
    }

    /// The registry ID stored in the upper 32 bits.
    pub fn registry_id_bits(self) -> (r: u32)
        ensures
            r == registry_id_field(self@),
    {
        let v = self.0;
        assert(v >> 32u64 <= 0xFFFF_FFFFu64) by (bit_vector);
        (v >> 32u64) as u32
    }

    /// The 6-bit shape field.
    pub fn shape_id_bits(self) -> (r: u8)
        ensures
            r == shape_id_field(self@),
    {
        (self.0 & 0x3f) as u8
    }

    /// The 6-bit solid-sides field.
    pub fn solid_sides_bits(self) -> (r: u8)
        ensures
            r == solid_sides_field(self@),
    {
        ((self.0 >> 6u64) & 0x3f) as u8
    }

    /// The 2-bit render-mode field.
    pub fn render_mode_bits(self) -> (r: u8)
        ensures
            r == render_mode_field(self@),
    {
        ((self.0 >> 12u64) & 0x3) as u8
    }
}

/// Packing then reading back gives every field exactly, for all field values
/// within their bit widths; out-of-range small fields come back truncated.
pub proof fn lemma_block_id_fields_round_trip(
    registry_id: u32,
    shape_id: u8,
    solid_sides: u8,
    render_mode: u8,
)
    ensures
        registry_id_field(packed_bits(registry_id, shape_id, solid_sides, render_mode))
            == registry_id,
        shape_id_field(packed_bits(registry_id, shape_id, solid_sides, render_mode)) == shape_id
            & 0x3f,
        solid_sides_field(packed_bits(registry_id, shape_id, solid_sides, render_mode))
            == solid_sides & 0x3f,
        render_mode_field(packed_bits(registry_id, shape_id, solid_sides, render_mode))
            == render_mode & 0x3,
        shape_id < 64 ==> shape_id_field(packed_bits(registry_id, shape_id, solid_sides, render_mode)) == shape_id,
        solid_sides < 64 ==> solid_sides_field(packed_bits(registry_id, shape_id, solid_sides, render_mode)) == solid_sides,
        render_mode < 4 ==> render_mode_field(packed_bits(registry_id, shape_id, solid_sides, render_mode)) == render_mode,
{
    let r = registry_id as u64;
    let s = shape_id as u64;
    let d = solid_sides as u64;
    let m = render_mode as u64;
    let b = packed_bits(registry_id, shape_id, solid_sides, render_mode);
    assert(b == (r << 32u64) | (s & 0x3f) | ((d & 0x3f) << 6u64) | ((m & 0x3) << 12u64));
    assert(r < 0x1_0000_0000 && s < 256 && d < 256 && m < 256 ==> ((((r << 32u64) | (s & 0x3f) | ((d & 0x3f) << 6u64) | ((m & 0x3) << 12u64)) >> 32u64) == r
        && ((((r << 32u64) | (s & 0x3f) | ((d & 0x3f) << 6u64) | ((m & 0x3) << 12u64)) & 0x3f) == s & 0x3f)
        && (((((r << 32u64) | (s & 0x3f) | ((d & 0x3f) << 6u64) | ((m & 0x3) << 12u64)) >> 6u64) & 0x3f) == d & 0x3f)
        && (((((r << 32u64) | (s & 0x3f) | ((d & 0x3f) << 6u64) | ((m & 0x3) << 12u64)) >> 12u64) & 0x3) == m & 0x3)
        && (s < 64 ==> s & 0x3f == s) && (d < 64 ==> d & 0x3f == d) && (m < 4 ==> m & 0x3 == m))) by (bit_vector);
    assert((shape_id & 0x3f) as u64 == s & 0x3f) by (bit_vector) requires s == shape_id as u64;
    assert((solid_sides & 0x3f) as u64 == d & 0x3f) by (bit_vector) requires d == solid_sides as u64;
    assert((render_mode & 0x3) as u64 == m & 0x3) by (bit_vector) requires m == render_mode as u64;
}

} // verus!
