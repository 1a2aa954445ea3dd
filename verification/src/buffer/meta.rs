//! Typed views of the metadata blocks that a buffer can carry.

use vstd::prelude::*;

use crate::param::video::VideoFormat;
use crate::sys::{
    spa_meta, spa_meta_bitmap, spa_meta_busy, spa_meta_control, spa_meta_cursor, spa_meta_header,
    spa_meta_region, spa_meta_sync_timeline, spa_meta_videotransform, spa_pod_sequence, spa_region,
    SPA_META_Bitmap, SPA_META_Busy, SPA_META_Control, SPA_META_Cursor, SPA_META_Header,
    SPA_META_SyncTimeline, SPA_META_VideoCrop, SPA_META_VideoDamage, SPA_META_VideoTransform,
};
use crate::utils::{Point, Rectangle};

verus! {

/// A kind of buffer metadata, identified by its SPA metadata type.
pub trait Metadata {
    const META_TYPE: u32;
}

/// Flags of a buffer's header metadata. Its text form is `debug_text`.
#[derive(Clone, Copy, PartialEq, Eq, Structural)]
pub struct MetaHeaderFlags(u32);

impl View for MetaHeaderFlags {
    type V = u32;

    closed spec fn view(&self) -> u32 {
        self.0
    }
}

impl MetaHeaderFlags {
    /// The bits of the flags that are defined.
    pub open spec fn spec_all_bits() -> u32 {
        0x3f
    }

    /// Buffer is discontinuous
    #[allow(non_snake_case)]
    pub fn DISCONT() -> (r: Self)
        ensures
            r@ == 0x1,
    {
        Self(0x1)
    }

    /// Buffer data is corrupted
    #[allow(non_snake_case)]
    pub fn CORRUPTED() -> (r: Self)
        ensures
            r@ == 0x2,
    {
        Self(0x2)
    }

    /// Buffer contains a codec config marker
    #[allow(non_snake_case)]
    pub fn MARKER() -> (r: Self)
        ensures
            r@ == 0x4,
    {
        Self(0x4)
    }

    /// Buffer contains header data
    #[allow(non_snake_case)]
    pub fn HEADER() -> (r: Self)
        ensures
            r@ == 0x8,
    {
        Self(0x8)
    }

    /// Buffer represents a gap in the stream
    #[allow(non_snake_case)]
    pub fn GAP() -> (r: Self)
        ensures
            r@ == 0x10,
    {
        Self(0x10)
    }

    /// Buffer is a delta unit (not self-contained)
    #[allow(non_snake_case)]
    pub fn DELTA_UNIT() -> (r: Self)
        ensures
            r@ == 0x20,
    {
        Self(0x20)
    }

    /// The flags with the given bits, undefined bits kept.
    pub closed spec fn spec_from_bits_retain(bits: u32) -> Self {
        Self(bits)
    }

    /// The flags with the given bits, undefined bits dropped.
    pub closed spec fn spec_from_bits_truncate(bits: u32) -> Self {
        Self(bits & 0x3f)
    }

    /// The flags with the given bits when every set bit is a defined flag.
    pub closed spec fn spec_from_bits(bits: u32) -> Option<Self> {
        if bits & 0x3f == bits {
            Some(Self(bits))
        } else {
            None
        }
    }

    /// Whether every flag of `other` is set in `self`.
    pub open spec fn spec_contains(self, other: Self) -> bool {
        self@ & other@ == other@
    }

    /// Whether some flag of `other` is set in `self`.
    pub open spec fn spec_intersects(self, other: Self) -> bool {
        self@ & other@ != 0
    }

    /// The flags set in `self` or in `other`.
    pub closed spec fn spec_union(self, other: Self) -> Self {
        Self(self.0 | other.0)
    }

    /// The flags set in `self` and not in `other`.
    pub closed spec fn spec_difference(self, other: Self) -> Self {
        Self(self.0 & !other.0)
    }

    /// The flags set in both `self` and `other`.
    pub closed spec fn spec_intersection(self, other: Self) -> Self {
        Self(self.0 & other.0)
    }

    /// The flags set in exactly one of `self` and `other`.
    pub closed spec fn spec_symmetric_difference(self, other: Self) -> Self {
        Self(self.0 ^ other.0)
    }

    /// The defined flags not set in `self`.
    pub closed spec fn spec_complement(self) -> Self {
        Self(!self.0 & 0x3f)
    }

    /// The bits of each flag value built by the operations above.
    pub proof fn lemma_spec_bits(bits: u32, flags: Self, other: Self)
        ensures
            Self::spec_from_bits_retain(bits)@ == bits,
            Self::spec_from_bits_truncate(bits)@ == bits & Self::spec_all_bits(),
            Self::spec_from_bits(bits) matches Some(f) ==> f@ == bits,
            flags.spec_union(other)@ == flags@ | other@,
            flags.spec_difference(other)@ == flags@ & !other@,
            flags.spec_intersection(other)@ == flags@ & other@,
            flags.spec_symmetric_difference(other)@ == flags@ ^ other@,
            flags.spec_complement()@ == !flags@ & Self::spec_all_bits(),
    {
    }

    /// The text of a flag value: the type's name and, in brackets, the
    /// names of the set flags joined by ` | `, then any bits no name covers
    /// in hex; `0x0` in brackets when no bit is set.
    pub open spec fn spec_debug_text(bits: u32) -> Seq<char> {
        crate::flags::flag_text("MetaHeaderFlags"@, seq!["DISCONT"@, "CORRUPTED"@, "MARKER"@, "HEADER"@, "GAP"@, "DELTA_UNIT"@], seq![0x1u32, 0x2u32, 0x4u32, 0x8u32, 0x10u32, 0x20u32], bits)
    }

    /// Two flag values are equal exactly when their bits are.
    pub proof fn lemma_eq_iff_bits_eq(a: Self, b: Self)
        ensures
            (a == b) <==> (a@ == b@),
    {
    }

    /// The laws of the flag operations:
    /// - truncating keeps only defined bits, so `from_bits` accepts the
    ///   truncated bits unchanged and truncating them again changes nothing;
    /// - after `insert(other)` the flags contain `other` and whatever they
    ///   contained before;
    /// - after `remove(other)` the flags share no flag with `other`;
    /// - `contains(other)` holds exactly when `union(other)` changes nothing.
    pub proof fn lemma_flag_laws(bits: u32, flags: Self, other: Self)
        ensures
            Self::spec_from_bits(Self::spec_from_bits_truncate(bits)@)
                == Some(Self::spec_from_bits_truncate(bits)),
            Self::spec_from_bits_truncate(Self::spec_from_bits_truncate(bits)@)
                == Self::spec_from_bits_truncate(bits),
            flags.spec_union(other).spec_contains(other),
            flags.spec_union(other).spec_contains(flags),
            !flags.spec_difference(other).spec_intersects(other),
            flags.spec_contains(other) <==> flags.spec_union(other) == flags,
    {
        crate::flags::lemma_truncate_is_representable(bits, 0x3f);
        crate::flags::lemma_insert_contains(flags@, other@);
        crate::flags::lemma_remove_disjoint(flags@, other@);
        crate::flags::lemma_contains_iff_union_unchanged(flags@, other@);
    }

    /// The text of every value whose bits are all defined, and of one value
    /// with a bit no flag defines: the names of the set flags in the order
    /// the flags are declared, a flag being named when all its bits are set
    /// and it shows some bit not shown before, then any bits left in hex.
    pub proof fn lemma_debug_text_values()
        ensures
            Self::spec_debug_text(0x0u32) == "MetaHeaderFlags"@ + "(0x0)"@,
            Self::spec_debug_text(0x1u32) == "MetaHeaderFlags"@ + "("@ + "DISCONT"@ + ")"@,
            Self::spec_debug_text(0x2u32) == "MetaHeaderFlags"@ + "("@ + "CORRUPTED"@ + ")"@,
            Self::spec_debug_text(0x3u32) == "MetaHeaderFlags"@ + "("@ + "DISCONT"@ + " | "@ + "CORRUPTED"@ + ")"@,
            Self::spec_debug_text(0x4u32) == "MetaHeaderFlags"@ + "("@ + "MARKER"@ + ")"@,
            Self::spec_debug_text(0x5u32) == "MetaHeaderFlags"@ + "("@ + "DISCONT"@ + " | "@ + "MARKER"@ + ")"@,
            Self::spec_debug_text(0x6u32) == "MetaHeaderFlags"@ + "("@ + "CORRUPTED"@ + " | "@ + "MARKER"@ + ")"@,
            Self::spec_debug_text(0x7u32) == "MetaHeaderFlags"@ + "("@ + "DISCONT"@ + " | "@ + "CORRUPTED"@ + " | "@ + "MARKER"@ + ")"@,
            Self::spec_debug_text(0x8u32) == "MetaHeaderFlags"@ + "("@ + "HEADER"@ + ")"@,
            Self::spec_debug_text(0x9u32) == "MetaHeaderFlags"@ + "("@ + "DISCONT"@ + " | "@ + "HEADER"@ + ")"@,
            Self::spec_debug_text(0xau32) == "MetaHeaderFlags"@ + "("@ + "CORRUPTED"@ + " | "@ + "HEADER"@ + ")"@,
            Self::spec_debug_text(0xbu32) == "MetaHeaderFlags"@ + "("@ + "DISCONT"@ + " | "@ + "CORRUPTED"@ + " | "@ + "HEADER"@ + ")"@,
            Self::spec_debug_text(0xcu32) == "MetaHeaderFlags"@ + "("@ + "MARKER"@ + " | "@ + "HEADER"@ + ")"@,
            Self::spec_debug_text(0xdu32) == "MetaHeaderFlags"@ + "("@ + "DISCONT"@ + " | "@ + "MARKER"@ + " | "@ + "HEADER"@ + ")"@,
            Self::spec_debug_text(0xeu32) == "MetaHeaderFlags"@ + "("@ + "CORRUPTED"@ + " | "@ + "MARKER"@ + " | "@ + "HEADER"@ + ")"@,
            Self::spec_debug_text(0xfu32) == "MetaHeaderFlags"@ + "("@ + "DISCONT"@ + " | "@ + "CORRUPTED"@ + " | "@ + "MARKER"@ + " | "@ + "HEADER"@ + ")"@,
            Self::spec_debug_text(0x10u32) == "MetaHeaderFlags"@ + "("@ + "GAP"@ + ")"@,
            Self::spec_debug_text(0x11u32) == "MetaHeaderFlags"@ + "("@ + "DISCONT"@ + " | "@ + "GAP"@ + ")"@,
            Self::spec_debug_text(0x12u32) == "MetaHeaderFlags"@ + "("@ + "CORRUPTED"@ + " | "@ + "GAP"@ + ")"@,
            Self::spec_debug_text(0x13u32) == "MetaHeaderFlags"@ + "("@ + "DISCONT"@ + " | "@ + "CORRUPTED"@ + " | "@ + "GAP"@ + ")"@,
            Self::spec_debug_text(0x14u32) == "MetaHeaderFlags"@ + "("@ + "MARKER"@ + " | "@ + "GAP"@ + ")"@,
            Self::spec_debug_text(0x15u32) == "MetaHeaderFlags"@ + "("@ + "DISCONT"@ + " | "@ + "MARKER"@ + " | "@ + "GAP"@ + ")"@,
            Self::spec_debug_text(0x16u32) == "MetaHeaderFlags"@ + "("@ + "CORRUPTED"@ + " | "@ + "MARKER"@ + " | "@ + "GAP"@ + ")"@,
            Self::spec_debug_text(0x17u32) == "MetaHeaderFlags"@ + "("@ + "DISCONT"@ + " | "@ + "CORRUPTED"@ + " | "@ + "MARKER"@ + " | "@ + "GAP"@ + ")"@,
            Self::spec_debug_text(0x18u32) == "MetaHeaderFlags"@ + "("@ + "HEADER"@ + " | "@ + "GAP"@ + ")"@,
            Self::spec_debug_text(0x19u32) == "MetaHeaderFlags"@ + "("@ + "DISCONT"@ + " | "@ + "HEADER"@ + " | "@ + "GAP"@ + ")"@,
            Self::spec_debug_text(0x1au32) == "MetaHeaderFlags"@ + "("@ + "CORRUPTED"@ + " | "@ + "HEADER"@ + " | "@ + "GAP"@ + ")"@,
            Self::spec_debug_text(0x1bu32) == "MetaHeaderFlags"@ + "("@ + "DISCONT"@ + " | "@ + "CORRUPTED"@ + " | "@ + "HEADER"@ + " | "@ + "GAP"@ + ")"@,
            Self::spec_debug_text(0x1cu32) == "MetaHeaderFlags"@ + "("@ + "MARKER"@ + " | "@ + "HEADER"@ + " | "@ + "GAP"@ + ")"@,
            Self::spec_debug_text(0x1du32) == "MetaHeaderFlags"@ + "("@ + "DISCONT"@ + " | "@ + "MARKER"@ + " | "@ + "HEADER"@ + " | "@ + "GAP"@ + ")"@,
            Self::spec_debug_text(0x1eu32) == "MetaHeaderFlags"@ + "("@ + "CORRUPTED"@ + " | "@ + "MARKER"@ + " | "@ + "HEADER"@ + " | "@ + "GAP"@ + ")"@,
            Self::spec_debug_text(0x1fu32) == "MetaHeaderFlags"@ + "("@ + "DISCONT"@ + " | "@ + "CORRUPTED"@ + " | "@ + "MARKER"@ + " | "@ + "HEADER"@ + " | "@ + "GAP"@ + ")"@,
            Self::spec_debug_text(0x20u32) == "MetaHeaderFlags"@ + "("@ + "DELTA_UNIT"@ + ")"@,
            Self::spec_debug_text(0x21u32) == "MetaHeaderFlags"@ + "("@ + "DISCONT"@ + " | "@ + "DELTA_UNIT"@ + ")"@,
            Self::spec_debug_text(0x22u32) == "MetaHeaderFlags"@ + "("@ + "CORRUPTED"@ + " | "@ + "DELTA_UNIT"@ + ")"@,
            Self::spec_debug_text(0x23u32) == "MetaHeaderFlags"@ + "("@ + "DISCONT"@ + " | "@ + "CORRUPTED"@ + " | "@ + "DELTA_UNIT"@ + ")"@,
            Self::spec_debug_text(0x24u32) == "MetaHeaderFlags"@ + "("@ + "MARKER"@ + " | "@ + "DELTA_UNIT"@ + ")"@,
            Self::spec_debug_text(0x25u32) == "MetaHeaderFlags"@ + "("@ + "DISCONT"@ + " | "@ + "MARKER"@ + " | "@ + "DELTA_UNIT"@ + ")"@,
            Self::spec_debug_text(0x26u32) == "MetaHeaderFlags"@ + "("@ + "CORRUPTED"@ + " | "@ + "MARKER"@ + " | "@ + "DELTA_UNIT"@ + ")"@,
            Self::spec_debug_text(0x27u32) == "MetaHeaderFlags"@ + "("@ + "DISCONT"@ + " | "@ + "CORRUPTED"@ + " | "@ + "MARKER"@ + " | "@ + "DELTA_UNIT"@ + ")"@,
            Self::spec_debug_text(0x28u32) == "MetaHeaderFlags"@ + "("@ + "HEADER"@ + " | "@ + "DELTA_UNIT"@ + ")"@,
            Self::spec_debug_text(0x29u32) == "MetaHeaderFlags"@ + "("@ + "DISCONT"@ + " | "@ + "HEADER"@ + " | "@ + "DELTA_UNIT"@ + ")"@,
            Self::spec_debug_text(0x2au32) == "MetaHeaderFlags"@ + "("@ + "CORRUPTED"@ + " | "@ + "HEADER"@ + " | "@ + "DELTA_UNIT"@ + ")"@,
            Self::spec_debug_text(0x2bu32) == "MetaHeaderFlags"@ + "("@ + "DISCONT"@ + " | "@ + "CORRUPTED"@ + " | "@ + "HEADER"@ + " | "@ + "DELTA_UNIT"@ + ")"@,
            Self::spec_debug_text(0x2cu32) == "MetaHeaderFlags"@ + "("@ + "MARKER"@ + " | "@ + "HEADER"@ + " | "@ + "DELTA_UNIT"@ + ")"@,
            Self::spec_debug_text(0x2du32) == "MetaHeaderFlags"@ + "("@ + "DISCONT"@ + " | "@ + "MARKER"@ + " | "@ + "HEADER"@ + " | "@ + "DELTA_UNIT"@ + ")"@,
            Self::spec_debug_text(0x2eu32) == "MetaHeaderFlags"@ + "("@ + "CORRUPTED"@ + " | "@ + "MARKER"@ + " | "@ + "HEADER"@ + " | "@ + "DELTA_UNIT"@ + ")"@,
            Self::spec_debug_text(0x2fu32) == "MetaHeaderFlags"@ + "("@ + "DISCONT"@ + " | "@ + "CORRUPTED"@ + " | "@ + "MARKER"@ + " | "@ + "HEADER"@ + " | "@ + "DELTA_UNIT"@ + ")"@,
            Self::spec_debug_text(0x30u32) == "MetaHeaderFlags"@ + "("@ + "GAP"@ + " | "@ + "DELTA_UNIT"@ + ")"@,
            Self::spec_debug_text(0x31u32) == "MetaHeaderFlags"@ + "("@ + "DISCONT"@ + " | "@ + "GAP"@ + " | "@ + "DELTA_UNIT"@ + ")"@,
            Self::spec_debug_text(0x32u32) == "MetaHeaderFlags"@ + "("@ + "CORRUPTED"@ + " | "@ + "GAP"@ + " | "@ + "DELTA_UNIT"@ + ")"@,
            Self::spec_debug_text(0x33u32) == "MetaHeaderFlags"@ + "("@ + "DISCONT"@ + " | "@ + "CORRUPTED"@ + " | "@ + "GAP"@ + " | "@ + "DELTA_UNIT"@ + ")"@,
            Self::spec_debug_text(0x34u32) == "MetaHeaderFlags"@ + "("@ + "MARKER"@ + " | "@ + "GAP"@ + " | "@ + "DELTA_UNIT"@ + ")"@,
            Self::spec_debug_text(0x35u32) == "MetaHeaderFlags"@ + "("@ + "DISCONT"@ + " | "@ + "MARKER"@ + " | "@ + "GAP"@ + " | "@ + "DELTA_UNIT"@ + ")"@,
            Self::spec_debug_text(0x36u32) == "MetaHeaderFlags"@ + "("@ + "CORRUPTED"@ + " | "@ + "MARKER"@ + " | "@ + "GAP"@ + " | "@ + "DELTA_UNIT"@ + ")"@,
            Self::spec_debug_text(0x37u32) == "MetaHeaderFlags"@ + "("@ + "DISCONT"@ + " | "@ + "CORRUPTED"@ + " | "@ + "MARKER"@ + " | "@ + "GAP"@ + " | "@ + "DELTA_UNIT"@ + ")"@,
            Self::spec_debug_text(0x38u32) == "MetaHeaderFlags"@ + "("@ + "HEADER"@ + " | "@ + "GAP"@ + " | "@ + "DELTA_UNIT"@ + ")"@,
            Self::spec_debug_text(0x39u32) == "MetaHeaderFlags"@ + "("@ + "DISCONT"@ + " | "@ + "HEADER"@ + " | "@ + "GAP"@ + " | "@ + "DELTA_UNIT"@ + ")"@,
            Self::spec_debug_text(0x3au32) == "MetaHeaderFlags"@ + "("@ + "CORRUPTED"@ + " | "@ + "HEADER"@ + " | "@ + "GAP"@ + " | "@ + "DELTA_UNIT"@ + ")"@,
            Self::spec_debug_text(0x3bu32) == "MetaHeaderFlags"@ + "("@ + "DISCONT"@ + " | "@ + "CORRUPTED"@ + " | "@ + "HEADER"@ + " | "@ + "GAP"@ + " | "@ + "DELTA_UNIT"@ + ")"@,
            Self::spec_debug_text(0x3cu32) == "MetaHeaderFlags"@ + "("@ + "MARKER"@ + " | "@ + "HEADER"@ + " | "@ + "GAP"@ + " | "@ + "DELTA_UNIT"@ + ")"@,
            Self::spec_debug_text(0x3du32) == "MetaHeaderFlags"@ + "("@ + "DISCONT"@ + " | "@ + "MARKER"@ + " | "@ + "HEADER"@ + " | "@ + "GAP"@ + " | "@ + "DELTA_UNIT"@ + ")"@,
            Self::spec_debug_text(0x3eu32) == "MetaHeaderFlags"@ + "("@ + "CORRUPTED"@ + " | "@ + "MARKER"@ + " | "@ + "HEADER"@ + " | "@ + "GAP"@ + " | "@ + "DELTA_UNIT"@ + ")"@,
            Self::spec_debug_text(0x3fu32) == "MetaHeaderFlags"@ + "("@ + "DISCONT"@ + " | "@ + "CORRUPTED"@ + " | "@ + "MARKER"@ + " | "@ + "HEADER"@ + " | "@ + "GAP"@ + " | "@ + "DELTA_UNIT"@ + ")"@,
            Self::spec_debug_text(0x41u32) == "MetaHeaderFlags"@ + "("@ + "DISCONT"@ + " | "@ + "0x"@ + ("4"@ + "0"@) + ")"@,
    {
        reveal_with_fuel(crate::flags::walk_text, 8);
        reveal_with_fuel(crate::flags::hex, 3);
        assert(0x10u32 & !0x10u32 == 0x0u32 && 0x10u32 & 0x10u32 == 0x10u32 && 0x10u32 & 0x1u32 == 0x0u32 && 0x10u32 & 0x2u32 == 0x0u32 && 0x10u32 & 0x4u32 == 0x0u32 && 0x10u32 & 0x8u32 == 0x0u32 && 0x11u32 & !0x1u32 == 0x10u32 && 0x11u32 & 0x10u32 == 0x10u32 && 0x11u32 & 0x1u32 == 0x1u32 && 0x11u32 & 0x2u32 == 0x0u32 && 0x11u32 & 0x4u32 == 0x0u32 && 0x11u32 & 0x8u32 == 0x0u32 && 0x12u32 & !0x2u32 == 0x10u32 && 0x12u32 & 0x10u32 == 0x10u32 && 0x12u32 & 0x1u32 == 0x0u32 && 0x12u32 & 0x2u32 == 0x2u32 && 0x12u32 & 0x4u32 == 0x0u32 && 0x12u32 & 0x8u32 == 0x0u32 && 0x13u32 & !0x1u32 == 0x12u32 && 0x13u32 & 0x10u32 == 0x10u32 && 0x13u32 & 0x1u32 == 0x1u32 && 0x13u32 & 0x2u32 == 0x2u32 && 0x13u32 & 0x4u32 == 0x0u32 && 0x13u32 & 0x8u32 == 0x0u32 && 0x14u32 & !0x4u32 == 0x10u32 && 0x14u32 & 0x10u32 == 0x10u32 && 0x14u32 & 0x1u32 == 0x0u32 && 0x14u32 & 0x2u32 == 0x0u32 && 0x14u32 & 0x4u32 == 0x4u32 && 0x14u32 & 0x8u32 == 0x0u32 && 0x15u32 & !0x1u32 == 0x14u32 && 0x15u32 & 0x10u32 == 0x10u32 && 0x15u32 & 0x1u32 == 0x1u32 && 0x15u32 & 0x2u32 == 0x0u32 && 0x15u32 & 0x4u32 == 0x4u32 && 0x15u32 & 0x8u32 == 0x0u32 && 0x16u32 & !0x2u32 == 0x14u32 && 0x16u32 & 0x10u32 == 0x10u32 && 0x16u32 & 0x1u32 == 0x0u32 && 0x16u32 & 0x2u32 == 0x2u32 && 0x16u32 & 0x4u32 == 0x4u32 && 0x16u32 & 0x8u32 == 0x0u32 && 0x17u32 & !0x1u32 == 0x16u32 && 0x17u32 & 0x10u32 == 0x10u32 && 0x17u32 & 0x1u32 == 0x1u32 && 0x17u32 & 0x2u32 == 0x2u32 && 0x17u32 & 0x4u32 == 0x4u32 && 0x17u32 & 0x8u32 == 0x0u32 && 0x18u32 & !0x8u32 == 0x10u32 && 0x18u32 & 0x10u32 == 0x10u32 && 0x18u32 & 0x1u32 == 0x0u32 && 0x18u32 & 0x2u32 == 0x0u32 && 0x18u32 & 0x4u32 == 0x0u32 && 0x18u32 & 0x8u32 == 0x8u32 && 0x19u32 & !0x1u32 == 0x18u32 && 0x19u32 & 0x10u32 == 0x10u32 && 0x19u32 & 0x1u32 == 0x1u32 && 0x19u32 & 0x2u32 == 0x0u32 && 0x19u32 & 0x4u32 == 0x0u32 && 0x19u32 & 0x8u32 == 0x8u32 && 0x1au32 & !0x2u32 == 0x18u32 && 0x1au32 & 0x10u32 == 0x10u32 && 0x1au32 & 0x1u32 == 0x0u32 && 0x1au32 & 0x2u32 == 0x2u32 && 0x1au32 & 0x4u32 == 0x0u32 && 0x1au32 & 0x8u32 == 0x8u32 && 0x1bu32 & !0x1u32 == 0x1au32 && 0x1bu32 & 0x10u32 == 0x10u32 && 0x1bu32 & 0x1u32 == 0x1u32 && 0x1bu32 & 0x2u32 == 0x2u32 && 0x1bu32 & 0x4u32 == 0x0u32 && 0x1bu32 & 0x8u32 == 0x8u32 && 0x1cu32 & !0x4u32 == 0x18u32 && 0x1cu32 & 0x10u32 == 0x10u32 && 0x1cu32 & 0x1u32 == 0x0u32 && 0x1cu32 & 0x2u32 == 0x0u32 && 0x1cu32 & 0x4u32 == 0x4u32 && 0x1cu32 & 0x8u32 == 0x8u32 && 0x1du32 & !0x1u32 == 0x1cu32 && 0x1du32 & 0x10u32 == 0x10u32 && 0x1du32 & 0x1u32 == 0x1u32 && 0x1du32 & 0x2u32 == 0x0u32 && 0x1du32 & 0x4u32 == 0x4u32 && 0x1du32 & 0x8u32 == 0x8u32 && 0x1eu32 & !0x2u32 == 0x1cu32 && 0x1eu32 & 0x10u32 == 0x10u32 && 0x1eu32 & 0x1u32 == 0x0u32 && 0x1eu32 & 0x2u32 == 0x2u32 && 0x1eu32 & 0x4u32 == 0x4u32 && 0x1eu32 & 0x8u32 == 0x8u32 && 0x1fu32 & !0x1u32 == 0x1eu32 && 0x1fu32 & 0x10u32 == 0x10u32 && 0x1fu32 & 0x1u32 == 0x1u32 && 0x1fu32 & 0x2u32 == 0x2u32 && 0x1fu32 & 0x4u32 == 0x4u32 && 0x1fu32 & 0x8u32 == 0x8u32 && 0x1u32 & !0x1u32 == 0x0u32 && 0x1u32 & 0x1u32 == 0x1u32 && 0x20u32 & !0x20u32 == 0x0u32 && 0x20u32 & 0x10u32 == 0x0u32 && 0x20u32 & 0x1u32 == 0x0u32 && 0x20u32 & 0x20u32 == 0x20u32 && 0x20u32 & 0x2u32 == 0x0u32 && 0x20u32 & 0x4u32 == 0x0u32 && 0x20u32 & 0x8u32 == 0x0u32 && 0x21u32 & !0x1u32 == 0x20u32 && 0x21u32 & 0x10u32 == 0x0u32 && 0x21u32 & 0x1u32 == 0x1u32 && 0x21u32 & 0x20u32 == 0x20u32 && 0x21u32 & 0x2u32 == 0x0u32 && 0x21u32 & 0x4u32 == 0x0u32 && 0x21u32 & 0x8u32 == 0x0u32 && 0x22u32 & !0x2u32 == 0x20u32 && 0x22u32 & 0x10u32 == 0x0u32 && 0x22u32 & 0x1u32 == 0x0u32 && 0x22u32 & 0x20u32 == 0x20u32 && 0x22u32 & 0x2u32 == 0x2u32 && 0x22u32 & 0x4u32 == 0x0u32 && 0x22u32 & 0x8u32 == 0x0u32 && 0x23u32 & !0x1u32 == 0x22u32 && 0x23u32 & 0x10u32 == 0x0u32 && 0x23u32 & 0x1u32 == 0x1u32 && 0x23u32 & 0x20u32 == 0x20u32 && 0x23u32 & 0x2u32 == 0x2u32 && 0x23u32 & 0x4u32 == 0x0u32 && 0x23u32 & 0x8u32 == 0x0u32 && 0x24u32 & !0x4u32 == 0x20u32 && 0x24u32 & 0x10u32 == 0x0u32 && 0x24u32 & 0x1u32 == 0x0u32 && 0x24u32 & 0x20u32 == 0x20u32 && 0x24u32 & 0x2u32 == 0x0u32 && 0x24u32 & 0x4u32 == 0x4u32 && 0x24u32 & 0x8u32 == 0x0u32 && 0x25u32 & !0x1u32 == 0x24u32 && 0x25u32 & 0x10u32 == 0x0u32 && 0x25u32 & 0x1u32 == 0x1u32 && 0x25u32 & 0x20u32 == 0x20u32 && 0x25u32 & 0x2u32 == 0x0u32 && 0x25u32 & 0x4u32 == 0x4u32 && 0x25u32 & 0x8u32 == 0x0u32 && 0x26u32 & !0x2u32 == 0x24u32 && 0x26u32 & 0x10u32 == 0x0u32 && 0x26u32 & 0x1u32 == 0x0u32 && 0x26u32 & 0x20u32 == 0x20u32 && 0x26u32 & 0x2u32 == 0x2u32 && 0x26u32 & 0x4u32 == 0x4u32 && 0x26u32 & 0x8u32 == 0x0u32 && 0x27u32 & !0x1u32 == 0x26u32 && 0x27u32 & 0x10u32 == 0x0u32 && 0x27u32 & 0x1u32 == 0x1u32 && 0x27u32 & 0x20u32 == 0x20u32 && 0x27u32 & 0x2u32 == 0x2u32 && 0x27u32 & 0x4u32 == 0x4u32 && 0x27u32 & 0x8u32 == 0x0u32 && 0x28u32 & !0x8u32 == 0x20u32 && 0x28u32 & 0x10u32 == 0x0u32 && 0x28u32 & 0x1u32 == 0x0u32 && 0x28u32 & 0x20u32 == 0x20u32 && 0x28u32 & 0x2u32 == 0x0u32 && 0x28u32 & 0x4u32 == 0x0u32 && 0x28u32 & 0x8u32 == 0x8u32 && 0x29u32 & !0x1u32 == 0x28u32 && 0x29u32 & 0x10u32 == 0x0u32 && 0x29u32 & 0x1u32 == 0x1u32 && 0x29u32 & 0x20u32 == 0x20u32 && 0x29u32 & 0x2u32 == 0x0u32 && 0x29u32 & 0x4u32 == 0x0u32 && 0x29u32 & 0x8u32 == 0x8u32 && 0x2au32 & !0x2u32 == 0x28u32 && 0x2au32 & 0x10u32 == 0x0u32 && 0x2au32 & 0x1u32 == 0x0u32 && 0x2au32 & 0x20u32 == 0x20u32 && 0x2au32 & 0x2u32 == 0x2u32 && 0x2au32 & 0x4u32 == 0x0u32 && 0x2au32 & 0x8u32 == 0x8u32 && 0x2bu32 & !0x1u32 == 0x2au32 && 0x2bu32 & 0x10u32 == 0x0u32 && 0x2bu32 & 0x1u32 == 0x1u32 && 0x2bu32 & 0x20u32 == 0x20u32 && 0x2bu32 & 0x2u32 == 0x2u32 && 0x2bu32 & 0x4u32 == 0x0u32 && 0x2bu32 & 0x8u32 == 0x8u32 && 0x2cu32 & !0x4u32 == 0x28u32 && 0x2cu32 & 0x10u32 == 0x0u32 && 0x2cu32 & 0x1u32 == 0x0u32 && 0x2cu32 & 0x20u32 == 0x20u32 && 0x2cu32 & 0x2u32 == 0x0u32 && 0x2cu32 & 0x4u32 == 0x4u32 && 0x2cu32 & 0x8u32 == 0x8u32 && 0x2du32 & !0x1u32 == 0x2cu32 && 0x2du32 & 0x10u32 == 0x0u32 && 0x2du32 & 0x1u32 == 0x1u32 && 0x2du32 & 0x20u32 == 0x20u32 && 0x2du32 & 0x2u32 == 0x0u32 && 0x2du32 & 0x4u32 == 0x4u32 && 0x2du32 & 0x8u32 == 0x8u32 && 0x2eu32 & !0x2u32 == 0x2cu32 && 0x2eu32 & 0x10u32 == 0x0u32 && 0x2eu32 & 0x1u32 == 0x0u32 && 0x2eu32 & 0x20u32 == 0x20u32 && 0x2eu32 & 0x2u32 == 0x2u32 && 0x2eu32 & 0x4u32 == 0x4u32 && 0x2eu32 & 0x8u32 == 0x8u32 && 0x2fu32 & !0x1u32 == 0x2eu32 && 0x2fu32 & 0x10u32 == 0x0u32 && 0x2fu32 & 0x1u32 == 0x1u32 && 0x2fu32 & 0x20u32 == 0x20u32 && 0x2fu32 & 0x2u32 == 0x2u32 && 0x2fu32 & 0x4u32 == 0x4u32 && 0x2fu32 & 0x8u32 == 0x8u32 && 0x2u32 & !0x2u32 == 0x0u32 && 0x2u32 & 0x1u32 == 0x0u32 && 0x2u32 & 0x2u32 == 0x2u32 && 0x30u32 & !0x10u32 == 0x20u32 && 0x30u32 & 0x10u32 == 0x10u32 && 0x30u32 & 0x1u32 == 0x0u32 && 0x30u32 & 0x20u32 == 0x20u32 && 0x30u32 & 0x2u32 == 0x0u32 && 0x30u32 & 0x4u32 == 0x0u32 && 0x30u32 & 0x8u32 == 0x0u32 && 0x31u32 & !0x1u32 == 0x30u32 && 0x31u32 & 0x10u32 == 0x10u32 && 0x31u32 & 0x1u32 == 0x1u32 && 0x31u32 & 0x20u32 == 0x20u32 && 0x31u32 & 0x2u32 == 0x0u32 && 0x31u32 & 0x4u32 == 0x0u32 && 0x31u32 & 0x8u32 == 0x0u32 && 0x32u32 & !0x2u32 == 0x30u32 && 0x32u32 & 0x10u32 == 0x10u32 && 0x32u32 & 0x1u32 == 0x0u32 && 0x32u32 & 0x20u32 == 0x20u32 && 0x32u32 & 0x2u32 == 0x2u32 && 0x32u32 & 0x4u32 == 0x0u32 && 0x32u32 & 0x8u32 == 0x0u32 && 0x33u32 & !0x1u32 == 0x32u32 && 0x33u32 & 0x10u32 == 0x10u32 && 0x33u32 & 0x1u32 == 0x1u32 && 0x33u32 & 0x20u32 == 0x20u32 && 0x33u32 & 0x2u32 == 0x2u32 && 0x33u32 & 0x4u32 == 0x0u32 && 0x33u32 & 0x8u32 == 0x0u32 && 0x34u32 & !0x4u32 == 0x30u32 && 0x34u32 & 0x10u32 == 0x10u32 && 0x34u32 & 0x1u32 == 0x0u32 && 0x34u32 & 0x20u32 == 0x20u32 && 0x34u32 & 0x2u32 == 0x0u32 && 0x34u32 & 0x4u32 == 0x4u32 && 0x34u32 & 0x8u32 == 0x0u32 && 0x35u32 & !0x1u32 == 0x34u32 && 0x35u32 & 0x10u32 == 0x10u32 && 0x35u32 & 0x1u32 == 0x1u32 && 0x35u32 & 0x20u32 == 0x20u32 && 0x35u32 & 0x2u32 == 0x0u32 && 0x35u32 & 0x4u32 == 0x4u32 && 0x35u32 & 0x8u32 == 0x0u32 && 0x36u32 & !0x2u32 == 0x34u32 && 0x36u32 & 0x10u32 == 0x10u32 && 0x36u32 & 0x1u32 == 0x0u32 && 0x36u32 & 0x20u32 == 0x20u32 && 0x36u32 & 0x2u32 == 0x2u32 && 0x36u32 & 0x4u32 == 0x4u32 && 0x36u32 & 0x8u32 == 0x0u32 && 0x37u32 & !0x1u32 == 0x36u32 && 0x37u32 & 0x10u32 == 0x10u32 && 0x37u32 & 0x1u32 == 0x1u32 && 0x37u32 & 0x20u32 == 0x20u32 && 0x37u32 & 0x2u32 == 0x2u32 && 0x37u32 & 0x4u32 == 0x4u32 && 0x37u32 & 0x8u32 == 0x0u32 && 0x38u32 & !0x8u32 == 0x30u32 && 0x38u32 & 0x10u32 == 0x10u32 && 0x38u32 & 0x1u32 == 0x0u32 && 0x38u32 & 0x20u32 == 0x20u32 && 0x38u32 & 0x2u32 == 0x0u32 && 0x38u32 & 0x4u32 == 0x0u32 && 0x38u32 & 0x8u32 == 0x8u32 && 0x39u32 & !0x1u32 == 0x38u32 && 0x39u32 & 0x10u32 == 0x10u32 && 0x39u32 & 0x1u32 == 0x1u32 && 0x39u32 & 0x20u32 == 0x20u32 && 0x39u32 & 0x2u32 == 0x0u32 && 0x39u32 & 0x4u32 == 0x0u32 && 0x39u32 & 0x8u32 == 0x8u32 && 0x3au32 & !0x2u32 == 0x38u32 && 0x3au32 & 0x10u32 == 0x10u32 && 0x3au32 & 0x1u32 == 0x0u32 && 0x3au32 & 0x20u32 == 0x20u32 && 0x3au32 & 0x2u32 == 0x2u32 && 0x3au32 & 0x4u32 == 0x0u32 && 0x3au32 & 0x8u32 == 0x8u32 && 0x3bu32 & !0x1u32 == 0x3au32 && 0x3bu32 & 0x10u32 == 0x10u32 && 0x3bu32 & 0x1u32 == 0x1u32 && 0x3bu32 & 0x20u32 == 0x20u32 && 0x3bu32 & 0x2u32 == 0x2u32 && 0x3bu32 & 0x4u32 == 0x0u32 && 0x3bu32 & 0x8u32 == 0x8u32 && 0x3cu32 & !0x4u32 == 0x38u32 && 0x3cu32 & 0x10u32 == 0x10u32 && 0x3cu32 & 0x1u32 == 0x0u32 && 0x3cu32 & 0x20u32 == 0x20u32 && 0x3cu32 & 0x2u32 == 0x0u32 && 0x3cu32 & 0x4u32 == 0x4u32 && 0x3cu32 & 0x8u32 == 0x8u32 && 0x3du32 & !0x1u32 == 0x3cu32 && 0x3du32 & 0x10u32 == 0x10u32 && 0x3du32 & 0x1u32 == 0x1u32 && 0x3du32 & 0x20u32 == 0x20u32 && 0x3du32 & 0x2u32 == 0x0u32 && 0x3du32 & 0x4u32 == 0x4u32 && 0x3du32 & 0x8u32 == 0x8u32 && 0x3eu32 & !0x2u32 == 0x3cu32 && 0x3eu32 & 0x10u32 == 0x10u32 && 0x3eu32 & 0x1u32 == 0x0u32 && 0x3eu32 & 0x20u32 == 0x20u32 && 0x3eu32 & 0x2u32 == 0x2u32 && 0x3eu32 & 0x4u32 == 0x4u32 && 0x3eu32 & 0x8u32 == 0x8u32 && 0x3fu32 & !0x1u32 == 0x3eu32 && 0x3fu32 & 0x10u32 == 0x10u32 && 0x3fu32 & 0x1u32 == 0x1u32 && 0x3fu32 & 0x20u32 == 0x20u32 && 0x3fu32 & 0x2u32 == 0x2u32 && 0x3fu32 & 0x4u32 == 0x4u32 && 0x3fu32 & 0x8u32 == 0x8u32 && 0x3u32 & !0x1u32 == 0x2u32 && 0x3u32 & 0x1u32 == 0x1u32 && 0x3u32 & 0x2u32 == 0x2u32 && 0x41u32 & !0x1u32 == 0x40u32 && 0x41u32 & 0x10u32 == 0x0u32 && 0x41u32 & 0x1u32 == 0x1u32 && 0x41u32 & 0x20u32 == 0x0u32 && 0x41u32 & 0x2u32 == 0x0u32 && 0x41u32 & 0x4u32 == 0x0u32 && 0x41u32 & 0x8u32 == 0x0u32 && 0x4u32 & !0x4u32 == 0x0u32 && 0x4u32 & 0x1u32 == 0x0u32 && 0x4u32 & 0x2u32 == 0x0u32 && 0x4u32 & 0x4u32 == 0x4u32 && 0x5u32 & !0x1u32 == 0x4u32 && 0x5u32 & 0x1u32 == 0x1u32 && 0x5u32 & 0x2u32 == 0x0u32 && 0x5u32 & 0x4u32 == 0x4u32 && 0x6u32 & !0x2u32 == 0x4u32 && 0x6u32 & 0x1u32 == 0x0u32 && 0x6u32 & 0x2u32 == 0x2u32 && 0x6u32 & 0x4u32 == 0x4u32 && 0x7u32 & !0x1u32 == 0x6u32 && 0x7u32 & 0x1u32 == 0x1u32 && 0x7u32 & 0x2u32 == 0x2u32 && 0x7u32 & 0x4u32 == 0x4u32 && 0x8u32 & !0x8u32 == 0x0u32 && 0x8u32 & 0x1u32 == 0x0u32 && 0x8u32 & 0x2u32 == 0x0u32 && 0x8u32 & 0x4u32 == 0x0u32 && 0x8u32 & 0x8u32 == 0x8u32 && 0x9u32 & !0x1u32 == 0x8u32 && 0x9u32 & 0x1u32 == 0x1u32 && 0x9u32 & 0x2u32 == 0x0u32 && 0x9u32 & 0x4u32 == 0x0u32 && 0x9u32 & 0x8u32 == 0x8u32 && 0xau32 & !0x2u32 == 0x8u32 && 0xau32 & 0x1u32 == 0x0u32 && 0xau32 & 0x2u32 == 0x2u32 && 0xau32 & 0x4u32 == 0x0u32 && 0xau32 & 0x8u32 == 0x8u32 && 0xbu32 & !0x1u32 == 0xau32 && 0xbu32 & 0x1u32 == 0x1u32 && 0xbu32 & 0x2u32 == 0x2u32 && 0xbu32 & 0x4u32 == 0x0u32 && 0xbu32 & 0x8u32 == 0x8u32 && 0xcu32 & !0x4u32 == 0x8u32 && 0xcu32 & 0x1u32 == 0x0u32 && 0xcu32 & 0x2u32 == 0x0u32 && 0xcu32 & 0x4u32 == 0x4u32 && 0xcu32 & 0x8u32 == 0x8u32 && 0xdu32 & !0x1u32 == 0xcu32 && 0xdu32 & 0x1u32 == 0x1u32 && 0xdu32 & 0x2u32 == 0x0u32 && 0xdu32 & 0x4u32 == 0x4u32 && 0xdu32 & 0x8u32 == 0x8u32 && 0xeu32 & !0x2u32 == 0xcu32 && 0xeu32 & 0x1u32 == 0x0u32 && 0xeu32 & 0x2u32 == 0x2u32 && 0xeu32 & 0x4u32 == 0x4u32 && 0xeu32 & 0x8u32 == 0x8u32 && 0xfu32 & !0x1u32 == 0xeu32 && 0xfu32 & 0x1u32 == 0x1u32 && 0xfu32 & 0x2u32 == 0x2u32 && 0xfu32 & 0x4u32 == 0x4u32 && 0xfu32 & 0x8u32 == 0x8u32) by (bit_vector);
    }

    /// No flag set.
    pub fn empty() -> (r: Self)
        ensures
            r@ == 0,
    {
        Self(0)
    }

    /// Every defined flag set.
    pub fn all() -> (r: Self)
        ensures
            r@ == Self::spec_all_bits(),
    {
        Self(0x3f)
    }

    pub fn bits(&self) -> (r: u32)
        ensures
            r == self@,
    {
        self.0
    }

    /// The flags of `bits`, undefined bits kept.
    pub fn from_bits_retain(bits: u32) -> (r: Self)
        ensures
            r@ == bits,
            r == Self::spec_from_bits_retain(bits),
    {
        Self(bits)
    }

    /// The flags of `bits`, undefined bits dropped.
    pub fn from_bits_truncate(bits: u32) -> (r: Self)
        ensures
            r@ == bits & Self::spec_all_bits(),
            r == Self::spec_from_bits_truncate(bits),
    {
        Self(bits & 0x3f)
    }

    /// The flags of `bits` when every set bit is a defined flag, else `None`.
    pub fn from_bits(bits: u32) -> (r: Option<Self>)
        ensures
            r is Some <==> bits & Self::spec_all_bits() == bits,
            r matches Some(f) ==> f@ == bits,
            r == Self::spec_from_bits(bits),
    {
        if bits & 0x3f == bits {
            Some(Self(bits))
        } else {
            None
        }
    }

    pub fn is_empty(&self) -> (r: bool)
        ensures
            r == (self@ == 0),
    {
        self.0 == 0
    }

    /// Whether every flag of `other` is set in `self`.
    pub fn contains(&self, other: Self) -> (r: bool)
        ensures
            r == self.spec_contains(other),
    {
        self.0 & other.0 == other.0
    }

    /// Whether some flag of `other` is set in `self`.
    pub fn intersects(&self, other: Self) -> (r: bool)
        ensures
            r == self.spec_intersects(other),
    {
        self.0 & other.0 != 0
    }

    /// Sets the flags of `other`.
    pub fn insert(&mut self, other: Self)
        ensures
            final(self)@ == old(self)@ | other@,
            *final(self) == old(self).spec_union(other),
    {
        self.0 = self.0 | other.0;
    }

    /// Clears the flags of `other`.
    pub fn remove(&mut self, other: Self)
        ensures
            final(self)@ == old(self)@ & !other@,
            *final(self) == old(self).spec_difference(other),
    {
        self.0 = self.0 & !other.0;
    }

    /// The flags set in `self` or in `other`.
    pub fn union(self, other: Self) -> (r: Self)
        ensures
            r@ == self@ | other@,
            r == self.spec_union(other),
    {
        Self(self.0 | other.0)
    }

    /// Whether every defined flag is set.
    pub fn is_all(&self) -> (r: bool)
        ensures
            r == (Self::spec_all_bits() | self@ == self@),
    {
        0x3f | self.0 == self.0
    }

    /// Flips the flags of `other`.
    pub fn toggle(&mut self, other: Self)
        ensures
            final(self)@ == old(self)@ ^ other@,
            *final(self) == old(self).spec_symmetric_difference(other),
    {
        self.0 = self.0 ^ other.0;
    }

    /// Sets the flags of `other` when `value` holds, clears them otherwise.
    pub fn set(&mut self, other: Self, value: bool)
        ensures
            value ==> *final(self) == old(self).spec_union(other),
            !value ==> *final(self) == old(self).spec_difference(other),
            final(self)@ == if value { old(self)@ | other@ } else { old(self)@ & !other@ },
    {
        if value {
            self.insert(other);
        } else {
            self.remove(other);
        }
    }

    /// The flags set in both `self` and `other`.
    pub fn intersection(self, other: Self) -> (r: Self)
        ensures
            r@ == self@ & other@,
            r == self.spec_intersection(other),
    {
        Self(self.0 & other.0)
    }

    /// The flags set in `self` and not in `other`.
    pub fn difference(self, other: Self) -> (r: Self)
        ensures
            r@ == self@ & !other@,
            r == self.spec_difference(other),
    {
        Self(self.0 & !other.0)
    }

    /// The flags set in exactly one of `self` and `other`.
    pub fn symmetric_difference(self, other: Self) -> (r: Self)
        ensures
            r@ == self@ ^ other@,
            r == self.spec_symmetric_difference(other),
    {
        Self(self.0 ^ other.0)
    }

    /// The defined flags not set in `self`.
    pub fn complement(self) -> (r: Self)
        ensures
            r@ == !self@ & Self::spec_all_bits(),
            r == self.spec_complement(),
    {
        Self::from_bits_truncate(!self.0)
    }

    /// The text of the value; see `spec_debug_text`.
    pub fn debug_text(&self) -> (r: String)
        ensures
            r@ == Self::spec_debug_text(self@),
    {
        let names: [&'static str; 6] = ["DISCONT", "CORRUPTED", "MARKER", "HEADER", "GAP", "DELTA_UNIT"];
        let values: [u32; 6] = [0x1, 0x2, 0x4, 0x8, 0x10, 0x20];
        assert(names@.map_values(|n: &'static str| n@) =~= seq!["DISCONT"@, "CORRUPTED"@, "MARKER"@, "HEADER"@, "GAP"@, "DELTA_UNIT"@]);
        assert(values@ =~= seq![0x1u32, 0x2u32, 0x4u32, 0x8u32, 0x10u32, 0x20u32]);
        crate::flags::flag_text_of("MetaHeaderFlags", names.as_slice(), values.as_slice(), self.0)
    }
}

impl core::ops::BitOr for MetaHeaderFlags {
    type Output = Self;

    /// `union`.
    fn bitor(self, other: Self) -> (r: Self)
        ensures
            r == self.spec_union(other),
    {
        self.union(other)
    }
}

impl vstd::std_specs::ops::BitOrSpecImpl for MetaHeaderFlags {
    open spec fn obeys_bitor_spec() -> bool {
        true
    }

    open spec fn bitor_req(self, other: Self) -> bool {
        true
    }

    open spec fn bitor_spec(self, other: Self) -> Self {
        self.spec_union(other)
    }
}

impl core::ops::BitAnd for MetaHeaderFlags {
    type Output = Self;

    /// `intersection`.
    fn bitand(self, other: Self) -> (r: Self)
        ensures
            r == self.spec_intersection(other),
    {
        self.intersection(other)
    }
}

impl vstd::std_specs::ops::BitAndSpecImpl for MetaHeaderFlags {
    open spec fn obeys_bitand_spec() -> bool {
        true
    }

    open spec fn bitand_req(self, other: Self) -> bool {
        true
    }

    open spec fn bitand_spec(self, other: Self) -> Self {
        self.spec_intersection(other)
    }
}

impl core::ops::BitXor for MetaHeaderFlags {
    type Output = Self;

    /// `symmetric_difference`.
    fn bitxor(self, other: Self) -> (r: Self)
        ensures
            r == self.spec_symmetric_difference(other),
    {
        self.symmetric_difference(other)
    }
}

impl vstd::std_specs::ops::BitXorSpecImpl for MetaHeaderFlags {
    open spec fn obeys_bitxor_spec() -> bool {
        true
    }

    open spec fn bitxor_req(self, other: Self) -> bool {
        true
    }

    open spec fn bitxor_spec(self, other: Self) -> Self {
        self.spec_symmetric_difference(other)
    }
}

impl core::ops::Sub for MetaHeaderFlags {
    type Output = Self;

    /// `difference`.
    fn sub(self, other: Self) -> (r: Self)
        ensures
            r == self.spec_difference(other),
    {
        self.difference(other)
    }
}

impl vstd::std_specs::ops::SubSpecImpl for MetaHeaderFlags {
    open spec fn obeys_sub_spec() -> bool {
        true
    }

    open spec fn sub_req(self, other: Self) -> bool {
        true
    }

    open spec fn sub_spec(self, other: Self) -> Self {
        self.spec_difference(other)
    }
}

impl core::ops::Not for MetaHeaderFlags {
    type Output = Self;

    /// `complement`.
    fn not(self) -> (r: Self)
        ensures
            r == self.spec_complement(),
    {
        self.complement()
    }
}

impl vstd::std_specs::ops::NotSpecImpl for MetaHeaderFlags {
    open spec fn obeys_not_spec() -> bool {
        true
    }

    open spec fn not_req(self) -> bool {
        true
    }

    open spec fn not_spec(self) -> Self {
        self.spec_complement()
    }
}

/// Header metadata of a buffer.
#[derive(PartialEq, Eq, Structural, Debug)]
pub struct MetaHeader(spa_meta_header);

impl View for MetaHeader {
    type V = spa_meta_header;

    closed spec fn view(&self) -> spa_meta_header {
        self.0
    }
}

impl MetaHeader {
    /// Two values are equal exactly when their views are.
    pub proof fn lemma_eq_iff_view_eq(a: Self, b: Self)
        ensures
            (a == b) <==> (a@ == b@),
    {
    }
}

impl MetaHeader {
    /// The view of a raw structure.
    pub fn from_raw(raw: spa_meta_header) -> (r: Self)
        ensures
            r@ == raw,
    {
        Self(raw)
    }

    pub fn as_raw(&self) -> (r: &spa_meta_header)
        ensures
            *r == self@,
    {
        &self.0
    }

    pub fn offset(&self) -> (r: u32)
        ensures
            r == self@.offset,
    {
        self.0.offset
    }

    pub fn pts(&self) -> (r: i64)
        ensures
            r == self@.pts,
    {
        self.0.pts
    }

    pub fn dts_offset(&self) -> (r: i64)
        ensures
            r == self@.dts_offset,
    {
        self.0.dts_offset
    }

    pub fn seq(&self) -> (r: u64)
        ensures
            r == self@.seq,
    {
        self.0.seq
    }

    /// The header flags, undefined bits kept.
    pub fn flags(&self) -> (r: MetaHeaderFlags)
        ensures
            r@ == self@.flags,
    {
        MetaHeaderFlags::from_bits_retain(self.0.flags)
    }
}

impl Metadata for MetaHeader {
    const META_TYPE: u32 = SPA_META_Header;
}

/// A region of a video frame.
#[derive(PartialEq, Eq, Structural, Debug)]
pub struct MetaRegion(spa_meta_region);

impl View for MetaRegion {
    type V = spa_meta_region;

    closed spec fn view(&self) -> spa_meta_region {
        self.0
    }
}

impl MetaRegion {
    /// Two values are equal exactly when their views are.
    pub proof fn lemma_eq_iff_view_eq(a: Self, b: Self)
        ensures
            (a == b) <==> (a@ == b@),
    {
    }
}

impl MetaRegion {
    /// The view of a raw structure.
    pub fn from_raw(raw: spa_meta_region) -> (r: Self)
        ensures
            r@ == raw,
    {
        Self(raw)
    }

    pub fn as_raw(&self) -> (r: &spa_meta_region)
        ensures
            *r == self@,
    {
        &self.0
    }

    pub fn region(&self) -> (r: &spa_region)
        ensures
            *r == self@.region,
    {
        &self.0.region
    }

    pub fn position(&self) -> (r: Point)
        ensures
            r == self@.region.position,
    {
        self.0.region.position
    }

    pub fn size(&self) -> (r: Rectangle)
        ensures
            r == self@.region.size,
    {
        self.0.region.size
    }
}

/// Crop metadata: the part of the frame to show.
#[derive(PartialEq, Eq, Structural, Debug)]
pub struct VideoCrop(MetaRegion);

impl View for VideoCrop {
    type V = spa_meta_region;

    closed spec fn view(&self) -> spa_meta_region {
        self.0@
    }
}

impl VideoCrop {
    /// Two values are equal exactly when their views are.
    pub proof fn lemma_eq_iff_view_eq(a: Self, b: Self)
        ensures
            (a == b) <==> (a@ == b@),
    {
    }
}

impl VideoCrop {
    /// The view of a raw region.
    pub fn from_raw(raw: spa_meta_region) -> (r: Self)
        ensures
            r@ == raw,
    {
        Self(MetaRegion::from_raw(raw))
    }

    pub fn meta_region(&self) -> (r: &MetaRegion)
        ensures
            r@ == self@,
    {
        &self.0
    }
}

impl Metadata for VideoCrop {
    const META_TYPE: u32 = SPA_META_VideoCrop;
}

/// One damaged region of a video frame.
pub struct DamageRegion<'a>(&'a spa_meta_region);

impl<'a> View for DamageRegion<'a> {
    type V = spa_meta_region;

    closed spec fn view(&self) -> spa_meta_region {
        *self.0
    }
}

impl<'a> DamageRegion<'a> {
    /// Two regions are equal exactly when the regions they refer to are.
    pub proof fn lemma_eq_iff_view_eq(a: Self, b: Self)
        ensures
            (a == b) <==> (a@ == b@),
    {
    }

    /// The view of a raw region.
    pub fn new(raw: &'a spa_meta_region) -> (r: Self)
        ensures
            r@ == *raw,
    {
        Self(raw)
    }

    pub fn position(&self) -> (r: Point)
        ensures
            r == self@.region.position,
    {
        self.0.region.position
    }

    pub fn size(&self) -> (r: Rectangle)
        ensures
            r == self@.region.size,
    {
        Rectangle { width: self.0.region.size.width, height: self.0.region.size.height }
    }
}

/// Damage metadata: the damaged regions of a video frame.
#[derive(PartialEq, Eq, Structural, Debug)]
pub struct VideoDamage(spa_meta);

impl View for VideoDamage {
    type V = spa_meta;

    closed spec fn view(&self) -> spa_meta {
        self.0
    }
}

impl VideoDamage {
    /// Two values are equal exactly when their views are.
    pub proof fn lemma_eq_iff_view_eq(a: Self, b: Self)
        ensures
            (a == b) <==> (a@ == b@),
    {
    }
}

impl VideoDamage {
    /// The view of a raw metadata block.
    pub fn from_raw(raw: spa_meta) -> (r: Self)
        ensures
            r@ == raw,
    {
        Self(raw)
    }
}

impl Metadata for VideoDamage {
    const META_TYPE: u32 = SPA_META_VideoDamage;
}

/// Bitmap metadata, such as a cursor image.
#[derive(PartialEq, Eq, Structural, Debug)]
pub struct MetaBitmap(spa_meta_bitmap);

impl View for MetaBitmap {
    type V = spa_meta_bitmap;

    closed spec fn view(&self) -> spa_meta_bitmap {
        self.0
    }
}

impl MetaBitmap {
    /// Two values are equal exactly when their views are.
    pub proof fn lemma_eq_iff_view_eq(a: Self, b: Self)
        ensures
            (a == b) <==> (a@ == b@),
    {
    }
}

impl MetaBitmap {
    /// The view of a raw structure.
    pub fn from_raw(raw: spa_meta_bitmap) -> (r: Self)
        ensures
            r@ == raw,
    {
        Self(raw)
    }

    pub fn as_raw(&self) -> (r: &spa_meta_bitmap)
        ensures
            *r == self@,
    {
        &self.0
    }

    pub fn format(&self) -> (r: VideoFormat)
        ensures
            r.0 == self@.format,
    {
        VideoFormat(self.0.format)
    }

    pub fn size(&self) -> (r: Rectangle)
        ensures
            r == self@.size,
    {
        self.0.size
    }

    pub fn stride(&self) -> (r: i32)
        ensures
            r == self@.stride,
    {
        self.0.stride
    }

    pub fn offset(&self) -> (r: u32)
        ensures
            r == self@.offset,
    {
        self.0.offset
    }

    /// Whether the bitmap holds an image: its format is set.
    pub fn is_valid(&self) -> (r: bool)
        ensures
            r == (self@.format != 0),
    {
        self.0.format != 0
    }
}

impl Metadata for MetaBitmap {
    const META_TYPE: u32 = SPA_META_Bitmap;
}

/// Cursor metadata.
#[derive(PartialEq, Eq, Structural, Debug)]
pub struct MetaCursor(spa_meta_cursor);

impl View for MetaCursor {
    type V = spa_meta_cursor;

    closed spec fn view(&self) -> spa_meta_cursor {
        self.0
    }
}

impl MetaCursor {
    /// Two values are equal exactly when their views are.
    pub proof fn lemma_eq_iff_view_eq(a: Self, b: Self)
        ensures
            (a == b) <==> (a@ == b@),
    {
    }
}

impl MetaCursor {
    /// The view of a raw structure.
    pub fn from_raw(raw: spa_meta_cursor) -> (r: Self)
        ensures
            r@ == raw,
    {
        Self(raw)
    }

    pub fn as_raw(&self) -> (r: &spa_meta_cursor)
        ensures
            *r == self@,
    {
        &self.0
    }

    pub fn id(&self) -> (r: u32)
        ensures
            r == self@.id,
    {
        self.0.id
    }

    pub fn flags(&self) -> (r: u32)
        ensures
            r == self@.flags,
    {
        self.0.flags
    }

    pub fn position(&self) -> (r: Point)
        ensures
            r == self@.position,
    {
        self.0.position
    }

    /// This field has no meaning  when there is no valid bitmap.
    pub fn hotspot(&self) -> (r: Point)
        ensures
            r == self@.hotspot,
    {
        self.0.hotspot
    }

    pub fn bitmap_offset(&self) -> (r: u32)
        ensures
            r == self@.bitmap_offset,
    {
        self.0.bitmap_offset
    }

    /// Whether the cursor is set: its id is not zero.
    pub fn is_valid(&self) -> (r: bool)
        ensures
            r == (self@.id != 0),
    {
        self.0.id != 0
    }
}

impl Metadata for MetaCursor {
    const META_TYPE: u32 = SPA_META_Cursor;
}

/// Control metadata: a sequence of timed controls.
#[derive(PartialEq, Eq, Structural, Debug)]
pub struct MetaControl(spa_meta_control);

impl View for MetaControl {
    type V = spa_meta_control;

    closed spec fn view(&self) -> spa_meta_control {
        self.0
    }
}

impl MetaControl {
    /// Two values are equal exactly when their views are.
    pub proof fn lemma_eq_iff_view_eq(a: Self, b: Self)
        ensures
            (a == b) <==> (a@ == b@),
    {
    }
}

impl MetaControl {
    /// The view of a raw structure.
    pub fn from_raw(raw: spa_meta_control) -> (r: Self)
        ensures
            r@ == raw,
    {
        Self(raw)
    }

    pub fn as_raw(&self) -> (r: &spa_meta_control)
        ensures
            *r == self@,
    {
        &self.0
    }

    pub fn sequence(&self) -> (r: &spa_pod_sequence)
        ensures
            *r == self@.sequence,
    {
        &self.0.sequence
    }
}

impl Metadata for MetaControl {
    const META_TYPE: u32 = SPA_META_Control;
}

/// Busy metadata: whether, and how often, the buffer is in use.
#[derive(PartialEq, Eq, Structural, Debug)]
pub struct MetaBusy(spa_meta_busy);

impl View for MetaBusy {
    type V = spa_meta_busy;

    closed spec fn view(&self) -> spa_meta_busy {
        self.0
    }
}

impl MetaBusy {
    /// Two values are equal exactly when their views are.
    pub proof fn lemma_eq_iff_view_eq(a: Self, b: Self)
        ensures
            (a == b) <==> (a@ == b@),
    {
    }
}

impl MetaBusy {
    /// The view of a raw structure.
    pub fn from_raw(raw: spa_meta_busy) -> (r: Self)
        ensures
            r@ == raw,
    {
        Self(raw)
    }

    pub fn as_raw(&self) -> (r: &spa_meta_busy)
        ensures
            *r == self@,
    {
        &self.0
    }

    pub fn flag(&self) -> (r: u32)
        ensures
            r == self@.flags,
    {
        self.0.flags
    }

    pub fn count(&self) -> (r: u32)
        ensures
            r == self@.count,
    {
        self.0.count
    }
}

impl Metadata for MetaBusy {
    const META_TYPE: u32 = SPA_META_Busy;
}

/// A transformation of a video frame, as its SPA number. Its text form
/// is `debug_name`.
#[derive(Clone, Copy, PartialEq, Eq, Structural)]
pub struct VideoTransform(u32);

impl View for VideoTransform {
    type V = u32;

    closed spec fn view(&self) -> u32 {
        self.0
    }
}

/// The name under which a transform number is shown.
pub open spec fn video_transform_name(raw: u32) -> Seq<char> {
    if raw == 0 {
        "VideoTransform::IDENTITY"@
    } else if raw == 1 {
        "VideoTransform::ROT90"@
    } else if raw == 2 {
        "VideoTransform::ROT180"@
    } else if raw == 3 {
        "VideoTransform::ROT270"@
    } else if raw == 4 {
        "VideoTransform::FLIP_X"@
    } else if raw == 5 {
        "VideoTransform::FLIP_Y"@
    } else if raw == 6 {
        "VideoTransform::FLIP_XY"@
    } else {
        "VideoTransform::UNKNOWN"@
    }
}

impl VideoTransform {
    /// Two values are equal exactly when their views are.
    pub proof fn lemma_eq_iff_view_eq(a: Self, b: Self)
        ensures
            (a == b) <==> (a@ == b@),
    {
    }
}

impl VideoTransform {
    #[allow(non_snake_case)]
    pub fn IDENTITY() -> (r: Self)
        ensures
            r@ == 0,
    {
        Self(0)
    }

    #[allow(non_snake_case)]
    pub fn ROT90() -> (r: Self)
        ensures
            r@ == 1,
    {
        Self(1)
    }

    #[allow(non_snake_case)]
    pub fn ROT180() -> (r: Self)
        ensures
            r@ == 2,
    {
        Self(2)
    }

    #[allow(non_snake_case)]
    pub fn ROT270() -> (r: Self)
        ensures
            r@ == 3,
    {
        Self(3)
    }

    #[allow(non_snake_case)]
    pub fn FLIP_X() -> (r: Self)
        ensures
            r@ == 4,
    {
        Self(4)
    }

    #[allow(non_snake_case)]
    pub fn FLIP_Y() -> (r: Self)
        ensures
            r@ == 5,
    {
        Self(5)
    }

    #[allow(non_snake_case)]
    pub fn FLIP_XY() -> (r: Self)
        ensures
            r@ == 6,
    {
        Self(6)
    }

    pub fn from_raw(raw: u32) -> (r: Self)
        ensures
            r@ == raw,
    {
        Self(raw)
    }

    pub fn as_raw(&self) -> (r: u32)
        ensures
            r == self@,
    {
        self.0
    }

    /// The name under which the transform is shown, `UNKNOWN` for a number
    /// that names no transform.
    pub fn debug_name(&self) -> (r: &'static str)
        ensures
            r@ == video_transform_name(self@),
    {
        if self.0 == 0 {
            "VideoTransform::IDENTITY"
        } else if self.0 == 1 {
            "VideoTransform::ROT90"
        } else if self.0 == 2 {
            "VideoTransform::ROT180"
        } else if self.0 == 3 {
            "VideoTransform::ROT270"
        } else if self.0 == 4 {
            "VideoTransform::FLIP_X"
        } else if self.0 == 5 {
            "VideoTransform::FLIP_Y"
        } else if self.0 == 6 {
            "VideoTransform::FLIP_XY"
        } else {
            "VideoTransform::UNKNOWN"
        }
    }
}

/// Transform metadata: how to transform the video frame.
#[derive(PartialEq, Eq, Structural, Debug)]
pub struct MetaVideoTransform(spa_meta_videotransform);

impl View for MetaVideoTransform {
    type V = spa_meta_videotransform;

    closed spec fn view(&self) -> spa_meta_videotransform {
        self.0
    }
}

impl MetaVideoTransform {
    /// Two values are equal exactly when their views are.
    pub proof fn lemma_eq_iff_view_eq(a: Self, b: Self)
        ensures
            (a == b) <==> (a@ == b@),
    {
    }
}

impl MetaVideoTransform {
    /// The view of a raw structure.
    pub fn from_raw(raw: spa_meta_videotransform) -> (r: Self)
        ensures
            r@ == raw,
    {
        Self(raw)
    }

    pub fn as_raw(&self) -> (r: &spa_meta_videotransform)
        ensures
            *r == self@,
    {
        &self.0
    }

    pub fn transform(&self) -> (r: VideoTransform)
        ensures
            r@ == self@.transform,
    {
        VideoTransform::from_raw(self.0.transform)
    }
}

impl Metadata for MetaVideoTransform {
    const META_TYPE: u32 = SPA_META_VideoTransform;
}

/// Flags of a sync timeline. Its text form is `debug_text`.
#[derive(Clone, Copy, PartialEq, Eq, Structural)]
pub struct SyncTimelineFlags(u32);

impl View for SyncTimelineFlags {
    type V = u32;

    closed spec fn view(&self) -> u32 {
        self.0
    }
}

impl SyncTimelineFlags {
    /// The bits of the flags that are defined.
    pub open spec fn spec_all_bits() -> u32 {
        0x1
    }

    /// This flag is set by the producer and cleared by the consumer
    /// when it promises to signal the release point
    #[allow(non_snake_case)]
    pub fn UNSCHEDULED_RELEASE() -> (r: Self)
        ensures
            r@ == 0x1,
    {
        Self(0x1)
    }

    /// The flags with the given bits, undefined bits kept.
    pub closed spec fn spec_from_bits_retain(bits: u32) -> Self {
        Self(bits)
    }

    /// The flags with the given bits, undefined bits dropped.
    pub closed spec fn spec_from_bits_truncate(bits: u32) -> Self {
        Self(bits & 0x1)
    }

    /// The flags with the given bits when every set bit is a defined flag.
    pub closed spec fn spec_from_bits(bits: u32) -> Option<Self> {
        if bits & 0x1 == bits {
            Some(Self(bits))
        } else {
            None
        }
    }

    /// Whether every flag of `other` is set in `self`.
    pub open spec fn spec_contains(self, other: Self) -> bool {
        self@ & other@ == other@
    }

    /// Whether some flag of `other` is set in `self`.
    pub open spec fn spec_intersects(self, other: Self) -> bool {
        self@ & other@ != 0
    }

    /// The flags set in `self` or in `other`.
    pub closed spec fn spec_union(self, other: Self) -> Self {
        Self(self.0 | other.0)
    }

    /// The flags set in `self` and not in `other`.
    pub closed spec fn spec_difference(self, other: Self) -> Self {
        Self(self.0 & !other.0)
    }

    /// The flags set in both `self` and `other`.
    pub closed spec fn spec_intersection(self, other: Self) -> Self {
        Self(self.0 & other.0)
    }

    /// The flags set in exactly one of `self` and `other`.
    pub closed spec fn spec_symmetric_difference(self, other: Self) -> Self {
        Self(self.0 ^ other.0)
    }

    /// The defined flags not set in `self`.
    pub closed spec fn spec_complement(self) -> Self {
        Self(!self.0 & 0x1)
    }

    /// The bits of each flag value built by the operations above.
    pub proof fn lemma_spec_bits(bits: u32, flags: Self, other: Self)
        ensures
            Self::spec_from_bits_retain(bits)@ == bits,
            Self::spec_from_bits_truncate(bits)@ == bits & Self::spec_all_bits(),
            Self::spec_from_bits(bits) matches Some(f) ==> f@ == bits,
            flags.spec_union(other)@ == flags@ | other@,
            flags.spec_difference(other)@ == flags@ & !other@,
            flags.spec_intersection(other)@ == flags@ & other@,
            flags.spec_symmetric_difference(other)@ == flags@ ^ other@,
            flags.spec_complement()@ == !flags@ & Self::spec_all_bits(),
    {
    }

    /// The text of a flag value: the type's name and, in brackets, the
    /// names of the set flags joined by ` | `, then any bits no name covers
    /// in hex; `0x0` in brackets when no bit is set.
    pub open spec fn spec_debug_text(bits: u32) -> Seq<char> {
        crate::flags::flag_text("SyncTimelineFlags"@, seq!["UNSCHEDULED_RELEASE"@], seq![0x1u32], bits)
    }

    /// Two flag values are equal exactly when their bits are.
    pub proof fn lemma_eq_iff_bits_eq(a: Self, b: Self)
        ensures
            (a == b) <==> (a@ == b@),
    {
    }

    /// The laws of the flag operations:
    /// - truncating keeps only defined bits, so `from_bits` accepts the
    ///   truncated bits unchanged and truncating them again changes nothing;
    /// - after `insert(other)` the flags contain `other` and whatever they
    ///   contained before;
    /// - after `remove(other)` the flags share no flag with `other`;
    /// - `contains(other)` holds exactly when `union(other)` changes nothing.
    pub proof fn lemma_flag_laws(bits: u32, flags: Self, other: Self)
        ensures
            Self::spec_from_bits(Self::spec_from_bits_truncate(bits)@)
                == Some(Self::spec_from_bits_truncate(bits)),
            Self::spec_from_bits_truncate(Self::spec_from_bits_truncate(bits)@)
                == Self::spec_from_bits_truncate(bits),
            flags.spec_union(other).spec_contains(other),
            flags.spec_union(other).spec_contains(flags),
            !flags.spec_difference(other).spec_intersects(other),
            flags.spec_contains(other) <==> flags.spec_union(other) == flags,
    {
        crate::flags::lemma_truncate_is_representable(bits, 0x1);
        crate::flags::lemma_insert_contains(flags@, other@);
        crate::flags::lemma_remove_disjoint(flags@, other@);
        crate::flags::lemma_contains_iff_union_unchanged(flags@, other@);
    }

    /// The text of every value whose bits are all defined, and of one value
    /// with a bit no flag defines: the names of the set flags in the order
    /// the flags are declared, a flag being named when all its bits are set
    /// and it shows some bit not shown before, then any bits left in hex.
    pub proof fn lemma_debug_text_values()
        ensures
            Self::spec_debug_text(0x0u32) == "SyncTimelineFlags"@ + "(0x0)"@,
            Self::spec_debug_text(0x1u32) == "SyncTimelineFlags"@ + "("@ + "UNSCHEDULED_RELEASE"@ + ")"@,
            Self::spec_debug_text(0x3u32) == "SyncTimelineFlags"@ + "("@ + "UNSCHEDULED_RELEASE"@ + " | "@ + "0x"@ + "2"@ + ")"@,
    {
        reveal_with_fuel(crate::flags::walk_text, 3);
        reveal_with_fuel(crate::flags::hex, 3);
        assert(0x1u32 & !0x1u32 == 0x0u32 && 0x1u32 & 0x1u32 == 0x1u32 && 0x3u32 & !0x1u32 == 0x2u32 && 0x3u32 & 0x1u32 == 0x1u32) by (bit_vector);
    }

    /// No flag set.
    pub fn empty() -> (r: Self)
        ensures
            r@ == 0,
    {
        Self(0)
    }

    /// Every defined flag set.
    pub fn all() -> (r: Self)
        ensures
            r@ == Self::spec_all_bits(),
    {
        Self(0x1)
    }

    pub fn bits(&self) -> (r: u32)
        ensures
            r == self@,
    {
        self.0
    }

    /// The flags of `bits`, undefined bits kept.
    pub fn from_bits_retain(bits: u32) -> (r: Self)
        ensures
            r@ == bits,
            r == Self::spec_from_bits_retain(bits),
    {
        Self(bits)
    }

    /// The flags of `bits`, undefined bits dropped.
    pub fn from_bits_truncate(bits: u32) -> (r: Self)
        ensures
            r@ == bits & Self::spec_all_bits(),
            r == Self::spec_from_bits_truncate(bits),
    {
        Self(bits & 0x1)
    }

    /// The flags of `bits` when every set bit is a defined flag, else `None`.
    pub fn from_bits(bits: u32) -> (r: Option<Self>)
        ensures
            r is Some <==> bits & Self::spec_all_bits() == bits,
            r matches Some(f) ==> f@ == bits,
            r == Self::spec_from_bits(bits),
    {
        if bits & 0x1 == bits {
            Some(Self(bits))
        } else {
            None
        }
    }

    pub fn is_empty(&self) -> (r: bool)
        ensures
            r == (self@ == 0),
    {
        self.0 == 0
    }

    /// Whether every flag of `other` is set in `self`.
    pub fn contains(&self, other: Self) -> (r: bool)
        ensures
            r == self.spec_contains(other),
    {
        self.0 & other.0 == other.0
    }

    /// Whether some flag of `other` is set in `self`.
    pub fn intersects(&self, other: Self) -> (r: bool)
        ensures
            r == self.spec_intersects(other),
    {
        self.0 & other.0 != 0
    }

    /// Sets the flags of `other`.
    pub fn insert(&mut self, other: Self)
        ensures
            final(self)@ == old(self)@ | other@,
            *final(self) == old(self).spec_union(other),
    {
        self.0 = self.0 | other.0;
    }

    /// Clears the flags of `other`.
    pub fn remove(&mut self, other: Self)
        ensures
            final(self)@ == old(self)@ & !other@,
            *final(self) == old(self).spec_difference(other),
    {
        self.0 = self.0 & !other.0;
    }

    /// The flags set in `self` or in `other`.
    pub fn union(self, other: Self) -> (r: Self)
        ensures
            r@ == self@ | other@,
            r == self.spec_union(other),
    {
        Self(self.0 | other.0)
    }

    /// Whether every defined flag is set.
    pub fn is_all(&self) -> (r: bool)
        ensures
            r == (Self::spec_all_bits() | self@ == self@),
    {
        0x1 | self.0 == self.0
    }

    /// Flips the flags of `other`.
    pub fn toggle(&mut self, other: Self)
        ensures
            final(self)@ == old(self)@ ^ other@,
            *final(self) == old(self).spec_symmetric_difference(other),
    {
        self.0 = self.0 ^ other.0;
    }

    /// Sets the flags of `other` when `value` holds, clears them otherwise.
    pub fn set(&mut self, other: Self, value: bool)
        ensures
            value ==> *final(self) == old(self).spec_union(other),
            !value ==> *final(self) == old(self).spec_difference(other),
            final(self)@ == if value { old(self)@ | other@ } else { old(self)@ & !other@ },
    {
        if value {
            self.insert(other);
        } else {
            self.remove(other);
        }
    }

    /// The flags set in both `self` and `other`.
    pub fn intersection(self, other: Self) -> (r: Self)
        ensures
            r@ == self@ & other@,
            r == self.spec_intersection(other),
    {
        Self(self.0 & other.0)
    }

    /// The flags set in `self` and not in `other`.
    pub fn difference(self, other: Self) -> (r: Self)
        ensures
            r@ == self@ & !other@,
            r == self.spec_difference(other),
    {
        Self(self.0 & !other.0)
    }

    /// The flags set in exactly one of `self` and `other`.
    pub fn symmetric_difference(self, other: Self) -> (r: Self)
        ensures
            r@ == self@ ^ other@,
            r == self.spec_symmetric_difference(other),
    {
        Self(self.0 ^ other.0)
    }

    /// The defined flags not set in `self`.
    pub fn complement(self) -> (r: Self)
        ensures
            r@ == !self@ & Self::spec_all_bits(),
            r == self.spec_complement(),
    {
        Self::from_bits_truncate(!self.0)
    }

    /// The text of the value; see `spec_debug_text`.
    pub fn debug_text(&self) -> (r: String)
        ensures
            r@ == Self::spec_debug_text(self@),
    {
        let names: [&'static str; 1] = ["UNSCHEDULED_RELEASE"];
        let values: [u32; 1] = [0x1];
        assert(names@.map_values(|n: &'static str| n@) =~= seq!["UNSCHEDULED_RELEASE"@]);
        assert(values@ =~= seq![0x1u32]);
        crate::flags::flag_text_of("SyncTimelineFlags", names.as_slice(), values.as_slice(), self.0)
    }
}

impl core::ops::BitOr for SyncTimelineFlags {
    type Output = Self;

    /// `union`.
    fn bitor(self, other: Self) -> (r: Self)
        ensures
            r == self.spec_union(other),
    {
        self.union(other)
    }
}

impl vstd::std_specs::ops::BitOrSpecImpl for SyncTimelineFlags {
    open spec fn obeys_bitor_spec() -> bool {
        true
    }

    open spec fn bitor_req(self, other: Self) -> bool {
        true
    }

    open spec fn bitor_spec(self, other: Self) -> Self {
        self.spec_union(other)
    }
}

impl core::ops::BitAnd for SyncTimelineFlags {
    type Output = Self;

    /// `intersection`.
    fn bitand(self, other: Self) -> (r: Self)
        ensures
            r == self.spec_intersection(other),
    {
        self.intersection(other)
    }
}

impl vstd::std_specs::ops::BitAndSpecImpl for SyncTimelineFlags {
    open spec fn obeys_bitand_spec() -> bool {
        true
    }

    open spec fn bitand_req(self, other: Self) -> bool {
        true
    }

    open spec fn bitand_spec(self, other: Self) -> Self {
        self.spec_intersection(other)
    }
}

impl core::ops::BitXor for SyncTimelineFlags {
    type Output = Self;

    /// `symmetric_difference`.
    fn bitxor(self, other: Self) -> (r: Self)
        ensures
            r == self.spec_symmetric_difference(other),
    {
        self.symmetric_difference(other)
    }
}

impl vstd::std_specs::ops::BitXorSpecImpl for SyncTimelineFlags {
    open spec fn obeys_bitxor_spec() -> bool {
        true
    }

    open spec fn bitxor_req(self, other: Self) -> bool {
        true
    }

    open spec fn bitxor_spec(self, other: Self) -> Self {
        self.spec_symmetric_difference(other)
    }
}

impl core::ops::Sub for SyncTimelineFlags {
    type Output = Self;

    /// `difference`.
    fn sub(self, other: Self) -> (r: Self)
        ensures
            r == self.spec_difference(other),
    {
        self.difference(other)
    }
}

impl vstd::std_specs::ops::SubSpecImpl for SyncTimelineFlags {
    open spec fn obeys_sub_spec() -> bool {
        true
    }

    open spec fn sub_req(self, other: Self) -> bool {
        true
    }

    open spec fn sub_spec(self, other: Self) -> Self {
        self.spec_difference(other)
    }
}

impl core::ops::Not for SyncTimelineFlags {
    type Output = Self;

    /// `complement`.
    fn not(self) -> (r: Self)
        ensures
            r == self.spec_complement(),
    {
        self.complement()
    }
}

impl vstd::std_specs::ops::NotSpecImpl for SyncTimelineFlags {
    open spec fn obeys_not_spec() -> bool {
        true
    }

    open spec fn not_req(self) -> bool {
        true
    }

    open spec fn not_spec(self) -> Self {
        self.spec_complement()
    }
}

/// Sync timeline metadata: when the data may be read and must be released.
#[derive(PartialEq, Eq, Structural, Debug)]
pub struct MetaSyncTimeline(spa_meta_sync_timeline);

impl View for MetaSyncTimeline {
    type V = spa_meta_sync_timeline;

    closed spec fn view(&self) -> spa_meta_sync_timeline {
        self.0
    }
}

impl MetaSyncTimeline {
    /// Two values are equal exactly when their views are.
    pub proof fn lemma_eq_iff_view_eq(a: Self, b: Self)
        ensures
            (a == b) <==> (a@ == b@),
    {
    }
}

impl MetaSyncTimeline {
    /// The view of a raw structure.
    pub fn from_raw(raw: spa_meta_sync_timeline) -> (r: Self)
        ensures
            r@ == raw,
    {
        Self(raw)
    }

    pub fn as_raw(&self) -> (r: &spa_meta_sync_timeline)
        ensures
            *r == self@,
    {
        &self.0
    }

    /// The timeline flags, undefined bits dropped.
    pub fn flags(&self) -> (r: SyncTimelineFlags)
        ensures
            r@ == self@.flags & SyncTimelineFlags::spec_all_bits(),
    {
        SyncTimelineFlags::from_bits_truncate(self.0.flags)
    }

    pub fn padding(&self) -> (r: u32)
        ensures
            r == self@.padding,
    {
        self.0.padding
    }

    /// The timeline acquire point - when the data can be accessed
    pub fn acquire_point(&self) -> (r: u64)
        ensures
            r == self@.acquire_point,
    {
        self.0.acquire_point
    }

    /// The timeline release point - should be signaled when data is no longer accessed
    pub fn release_point(&self) -> (r: u64)
        ensures
            r == self@.release_point,
    {
        self.0.release_point
    }
}

impl Metadata for MetaSyncTimeline {
    const META_TYPE: u32 = SPA_META_SyncTimeline;
}
} // verus!
