//! Safe views of buffer data planes, chunks and metadata.

use vstd::prelude::*;

pub mod meta;

use crate::sys::{
    spa_chunk, spa_data, spa_data_type, spa_meta_bitmap, spa_meta_control, spa_meta_cursor,
    spa_meta_header, spa_meta_region, spa_meta_sync_timeline, spa_meta_videotransform,
    spa_pod_sequence, SPA_DATA_DmaBuf, SPA_DATA_Invalid, SPA_DATA_MemFd, SPA_DATA_MemId,
    SPA_DATA_MemPtr, SPA_META_Bitmap, SPA_META_Busy, SPA_META_Control, SPA_META_Cursor,
    SPA_META_Header, SPA_META_SyncTimeline, SPA_META_VideoCrop, SPA_META_VideoDamage,
    SPA_META_VideoTransform,
};

verus! {

/// The kind of memory that a data plane refers to, as its SPA number.
/// Its text form is `debug_name`.
#[derive(Clone, Copy, PartialEq, Eq, Structural)]
pub struct DataType(spa_data_type);

impl View for DataType {
    type V = u32;

    closed spec fn view(&self) -> u32 {
        self.0
    }
}

/// The name under which a data type number is shown.
pub open spec fn data_type_name(raw: u32) -> Seq<char> {
    if raw == SPA_DATA_Invalid {
        "DataType::Invalid"@
    } else if raw == SPA_DATA_MemPtr {
        "DataType::MemPtr"@
    } else if raw == SPA_DATA_MemFd {
        "DataType::MemFd"@
    } else if raw == SPA_DATA_DmaBuf {
        "DataType::DmaBuf"@
    } else if raw == SPA_DATA_MemId {
        "DataType::MemId"@
    } else {
        "DataType::Unknown"@
    }
}

impl DataType {
    /// Two values are equal exactly when their views are.
    pub proof fn lemma_eq_iff_view_eq(a: Self, b: Self)
        ensures
            (a == b) <==> (a@ == b@),
    {
    }
}

#[allow(non_snake_case)]
impl DataType {
    pub fn Invalid() -> (r: Self)
        ensures
            r@ == SPA_DATA_Invalid,
    {
        Self(SPA_DATA_Invalid)
    }

    /// Pointer to memory, the data field in struct [`Data`] is set.
    pub fn MemPtr() -> (r: Self)
        ensures
            r@ == SPA_DATA_MemPtr,
    {
        Self(SPA_DATA_MemPtr)
    }

    /// Generic fd, `mmap` to get to memory
    pub fn MemFd() -> (r: Self)
        ensures
            r@ == SPA_DATA_MemFd,
    {
        Self(SPA_DATA_MemFd)
    }

    /// Fd to `dmabuf` memory
    pub fn DmaBuf() -> (r: Self)
        ensures
            r@ == SPA_DATA_DmaBuf,
    {
        Self(SPA_DATA_DmaBuf)
    }

    /// Memory is identified with an id
    pub fn MemId() -> (r: Self)
        ensures
            r@ == SPA_DATA_MemId,
    {
        Self(SPA_DATA_MemId)
    }

    pub fn from_raw(raw: spa_data_type) -> (r: Self)
        ensures
            r@ == raw,
    {
        Self(raw)
    }

    pub fn as_raw(&self) -> (r: spa_data_type)
        ensures
            r == self@,
    {
        self.0
    }

    /// The name under which the type is shown, `Unknown` for a number that
    /// names no type.
    pub fn debug_name(&self) -> (r: &'static str)
        ensures
            r@ == data_type_name(self@),
    {
        if self.0 == SPA_DATA_Invalid {
            "DataType::Invalid"
        } else if self.0 == SPA_DATA_MemPtr {
            "DataType::MemPtr"
        } else if self.0 == SPA_DATA_MemFd {
            "DataType::MemFd"
        } else if self.0 == SPA_DATA_DmaBuf {
            "DataType::DmaBuf"
        } else if self.0 == SPA_DATA_MemId {
            "DataType::MemId"
        } else {
            "DataType::Unknown"
        }
    }
}

/// Access flags of a data plane. Its text form is `debug_text`.
#[derive(Clone, Copy, PartialEq, Eq, Structural)]
pub struct DataFlags(u32);

impl View for DataFlags {
    type V = u32;

    closed spec fn view(&self) -> u32 {
        self.0
    }
}

impl DataFlags {
    /// The bits of the flags that are defined.
    pub open spec fn spec_all_bits() -> u32 {
        0x7
    }

    /// Data is readable
    #[allow(non_snake_case)]
    pub fn READABLE() -> (r: Self)
        ensures
            r@ == 0x1,
    {
        Self(0x1)
    }

    /// Data is writable
    #[allow(non_snake_case)]
    pub fn WRITABLE() -> (r: Self)
        ensures
            r@ == 0x2,
    {
        Self(0x2)
    }

    /// Data pointer can be changed
    #[allow(non_snake_case)]
    pub fn DYNAMIC() -> (r: Self)
        ensures
            r@ == 0x4,
    {
        Self(0x4)
    }

    #[allow(non_snake_case)]
    pub fn READWRITE() -> (r: Self)
        ensures
            r@ == 0x3,
    {
        let bits = Self::READABLE().bits() | Self::WRITABLE().bits();
        assert(0x1u32 | 0x2u32 == 0x3u32) by (bit_vector);
        Self(bits)
    }

    /// The flags with the given bits, undefined bits kept.
    pub closed spec fn spec_from_bits_retain(bits: u32) -> Self {
        Self(bits)
    }

    /// The flags with the given bits, undefined bits dropped.
    pub closed spec fn spec_from_bits_truncate(bits: u32) -> Self {
        Self(bits & 0x7)
    }

    /// The flags with the given bits when every set bit is a defined flag.
    pub closed spec fn spec_from_bits(bits: u32) -> Option<Self> {
        if bits & 0x7 == bits {
            Some(Self(bits))
        } else {
            None
        }
    }

    /// Whether every flag of `other` is set in `self`.
    pub open spec fn spec_contains(self, other: Self) -> bool {
        self@ & other@ == other@
    }

    /// Whether some flag of `other` is set in `self`.
    pub open spec fn spec_intersects(self, other: Self) -> bool {
        self@ & other@ != 0
    }

    /// The flags set in `self` or in `other`.
    pub closed spec fn spec_union(self, other: Self) -> Self {
        Self(self.0 | other.0)
    }

    /// The flags set in `self` and not in `other`.
    pub closed spec fn spec_difference(self, other: Self) -> Self {
        Self(self.0 & !other.0)
    }

    /// The flags set in both `self` and `other`.
    pub closed spec fn spec_intersection(self, other: Self) -> Self {
        Self(self.0 & other.0)
    }

    /// The flags set in exactly one of `self` and `other`.
    pub closed spec fn spec_symmetric_difference(self, other: Self) -> Self {
        Self(self.0 ^ other.0)
    }

    /// The defined flags not set in `self`.
    pub closed spec fn spec_complement(self) -> Self {
        Self(!self.0 & 0x7)
    }

    /// The bits of each flag value built by the operations above.
    pub proof fn lemma_spec_bits(bits: u32, flags: Self, other: Self)
        ensures
            Self::spec_from_bits_retain(bits)@ == bits,
            Self::spec_from_bits_truncate(bits)@ == bits & Self::spec_all_bits(),
            Self::spec_from_bits(bits) matches Some(f) ==> f@ == bits,
            flags.spec_union(other)@ == flags@ | other@,
            flags.spec_difference(other)@ == flags@ & !other@,
            flags.spec_intersection(other)@ == flags@ & other@,
            flags.spec_symmetric_difference(other)@ == flags@ ^ other@,
            flags.spec_complement()@ == !flags@ & Self::spec_all_bits(),
    {
    }

    /// The text of a flag value: the type's name and, in brackets, the
    /// names of the set flags joined by ` | `, then any bits no name covers
    /// in hex; `0x0` in brackets when no bit is set.
    pub open spec fn spec_debug_text(bits: u32) -> Seq<char> {
        crate::flags::flag_text("DataFlags"@, seq!["READABLE"@, "WRITABLE"@, "DYNAMIC"@, "READWRITE"@], seq![0x1u32, 0x2u32, 0x4u32, 0x3u32], bits)
    }

    /// Two flag values are equal exactly when their bits are.
    pub proof fn lemma_eq_iff_bits_eq(a: Self, b: Self)
        ensures
            (a == b) <==> (a@ == b@),
    {
    }

    /// The laws of the flag operations:
    /// - truncating keeps only defined bits, so `from_bits` accepts the
    ///   truncated bits unchanged and truncating them again changes nothing;
    /// - after `insert(other)` the flags contain `other` and whatever they
    ///   contained before;
    /// - after `remove(other)` the flags share no flag with `other`;
    /// - `contains(other)` holds exactly when `union(other)` changes nothing.
    pub proof fn lemma_flag_laws(bits: u32, flags: Self, other: Self)
        ensures
            Self::spec_from_bits(Self::spec_from_bits_truncate(bits)@)
                == Some(Self::spec_from_bits_truncate(bits)),
            Self::spec_from_bits_truncate(Self::spec_from_bits_truncate(bits)@)
                == Self::spec_from_bits_truncate(bits),
            flags.spec_union(other).spec_contains(other),
            flags.spec_union(other).spec_contains(flags),
            !flags.spec_difference(other).spec_intersects(other),
            flags.spec_contains(other) <==> flags.spec_union(other) == flags,
    {
        crate::flags::lemma_truncate_is_representable(bits, 0x7);
        crate::flags::lemma_insert_contains(flags@, other@);
        crate::flags::lemma_remove_disjoint(flags@, other@);
        crate::flags::lemma_contains_iff_union_unchanged(flags@, other@);
    }

    /// The text of every value whose bits are all defined, and of one value
    /// with a bit no flag defines: the names of the set flags in the order
    /// the flags are declared, a flag being named when all its bits are set
    /// and it shows some bit not shown before, then any bits left in hex.
    pub proof fn lemma_debug_text_values()
        ensures
            Self::spec_debug_text(0x0u32) == "DataFlags"@ + "(0x0)"@,
            Self::spec_debug_text(0x1u32) == "DataFlags"@ + "("@ + "READABLE"@ + ")"@,
            Self::spec_debug_text(0x2u32) == "DataFlags"@ + "("@ + "WRITABLE"@ + ")"@,
            Self::spec_debug_text(0x3u32) == "DataFlags"@ + "("@ + "READABLE"@ + " | "@ + "WRITABLE"@ + ")"@,
            Self::spec_debug_text(0x4u32) == "DataFlags"@ + "("@ + "DYNAMIC"@ + ")"@,
            Self::spec_debug_text(0x5u32) == "DataFlags"@ + "("@ + "READABLE"@ + " | "@ + "DYNAMIC"@ + ")"@,
            Self::spec_debug_text(0x6u32) == "DataFlags"@ + "("@ + "WRITABLE"@ + " | "@ + "DYNAMIC"@ + ")"@,
            Self::spec_debug_text(0x7u32) == "DataFlags"@ + "("@ + "READABLE"@ + " | "@ + "WRITABLE"@ + " | "@ + "DYNAMIC"@ + ")"@,
            Self::spec_debug_text(0x9u32) == "DataFlags"@ + "("@ + "READABLE"@ + " | "@ + "0x"@ + "8"@ + ")"@,
    {
        reveal_with_fuel(crate::flags::walk_text, 6);
        reveal_with_fuel(crate::flags::hex, 3);
        assert(0x1u32 & !0x1u32 == 0x0u32 && 0x1u32 & 0x1u32 == 0x1u32 && 0x2u32 & !0x2u32 == 0x0u32 && 0x2u32 & 0x1u32 == 0x0u32 && 0x2u32 & 0x2u32 == 0x2u32 && 0x3u32 & !0x1u32 == 0x2u32 && 0x3u32 & 0x1u32 == 0x1u32 && 0x3u32 & 0x2u32 == 0x2u32 && 0x4u32 & !0x4u32 == 0x0u32 && 0x4u32 & 0x1u32 == 0x0u32 && 0x4u32 & 0x2u32 == 0x0u32 && 0x4u32 & 0x4u32 == 0x4u32 && 0x5u32 & !0x1u32 == 0x4u32 && 0x5u32 & 0x1u32 == 0x1u32 && 0x5u32 & 0x2u32 == 0x0u32 && 0x5u32 & 0x4u32 == 0x4u32 && 0x6u32 & !0x2u32 == 0x4u32 && 0x6u32 & 0x1u32 == 0x0u32 && 0x6u32 & 0x2u32 == 0x2u32 && 0x6u32 & 0x4u32 == 0x4u32 && 0x7u32 & !0x1u32 == 0x6u32 && 0x7u32 & 0x1u32 == 0x1u32 && 0x7u32 & 0x2u32 == 0x2u32 && 0x7u32 & 0x4u32 == 0x4u32 && 0x9u32 & !0x1u32 == 0x8u32 && 0x9u32 & 0x1u32 == 0x1u32 && 0x9u32 & 0x2u32 == 0x0u32 && 0x9u32 & 0x3u32 == 0x1u32 && 0x9u32 & 0x4u32 == 0x0u32) by (bit_vector);
    }

    /// No flag set.
    pub fn empty() -> (r: Self)
        ensures
            r@ == 0,
    {
        Self(0)
    }

    /// Every defined flag set.
    pub fn all() -> (r: Self)
        ensures
            r@ == Self::spec_all_bits(),
    {
        Self(0x7)
    }

    pub fn bits(&self) -> (r: u32)
        ensures
            r == self@,
    {
        self.0
    }

    /// The flags of `bits`, undefined bits kept.
    pub fn from_bits_retain(bits: u32) -> (r: Self)
        ensures
            r@ == bits,
            r == Self::spec_from_bits_retain(bits),
    {
        Self(bits)
    }

    /// The flags of `bits`, undefined bits dropped.
    pub fn from_bits_truncate(bits: u32) -> (r: Self)
        ensures
            r@ == bits & Self::spec_all_bits(),
            r == Self::spec_from_bits_truncate(bits),
    {
        Self(bits & 0x7)
    }

    /// The flags of `bits` when every set bit is a defined flag, else `None`.
    pub fn from_bits(bits: u32) -> (r: Option<Self>)
        ensures
            r is Some <==> bits & Self::spec_all_bits() == bits,
            r matches Some(f) ==> f@ == bits,
            r == Self::spec_from_bits(bits),
    {
        if bits & 0x7 == bits {
            Some(Self(bits))
        } else {
            None
        }
    }

    pub fn is_empty(&self) -> (r: bool)
        ensures
            r == (self@ == 0),
    {
        self.0 == 0
    }

    /// Whether every flag of `other` is set in `self`.
    pub fn contains(&self, other: Self) -> (r: bool)
        ensures
            r == self.spec_contains(other),
    {
        self.0 & other.0 == other.0
    }

    /// Whether some flag of `other` is set in `self`.
    pub fn intersects(&self, other: Self) -> (r: bool)
        ensures
            r == self.spec_intersects(other),
    {
        self.0 & other.0 != 0
    }

    /// Sets the flags of `other`.
    pub fn insert(&mut self, other: Self)
        ensures
            final(self)@ == old(self)@ | other@,
            *final(self) == old(self).spec_union(other),
    {
        self.0 = self.0 | other.0;
    }

    /// Clears the flags of `other`.
    pub fn remove(&mut self, other: Self)
        ensures
            final(self)@ == old(self)@ & !other@,
            *final(self) == old(self).spec_difference(other),
    {
        self.0 = self.0 & !other.0;
    }

    /// The flags set in `self` or in `other`.
    pub fn union(self, other: Self) -> (r: Self)
        ensures
            r@ == self@ | other@,
            r == self.spec_union(other),
    {
        Self(self.0 | other.0)
    }

    /// Whether every defined flag is set.
    pub fn is_all(&self) -> (r: bool)
        ensures
            r == (Self::spec_all_bits() | self@ == self@),
    {
        0x7 | self.0 == self.0
    }

    /// Flips the flags of `other`.
    pub fn toggle(&mut self, other: Self)
        ensures
            final(self)@ == old(self)@ ^ other@,
            *final(self) == old(self).spec_symmetric_difference(other),
    {
        self.0 = self.0 ^ other.0;
    }

    /// Sets the flags of `other` when `value` holds, clears them otherwise.
    pub fn set(&mut self, other: Self, value: bool)
        ensures
            value ==> *final(self) == old(self).spec_union(other),
            !value ==> *final(self) == old(self).spec_difference(other),
            final(self)@ == if value { old(self)@ | other@ } else { old(self)@ & !other@ },
    {
        if value {
            self.insert(other);
        } else {
            self.remove(other);
        }
    }

    /// The flags set in both `self` and `other`.
    pub fn intersection(self, other: Self) -> (r: Self)
        ensures
            r@ == self@ & other@,
            r == self.spec_intersection(other),
    {
        Self(self.0 & other.0)
    }

    /// The flags set in `self` and not in `other`.
    pub fn difference(self, other: Self) -> (r: Self)
        ensures
            r@ == self@ & !other@,
            r == self.spec_difference(other),
    {
        Self(self.0 & !other.0)
    }

    /// The flags set in exactly one of `self` and `other`.
    pub fn symmetric_difference(self, other: Self) -> (r: Self)
        ensures
            r@ == self@ ^ other@,
            r == self.spec_symmetric_difference(other),
    {
        Self(self.0 ^ other.0)
    }

    /// The defined flags not set in `self`.
    pub fn complement(self) -> (r: Self)
        ensures
            r@ == !self@ & Self::spec_all_bits(),
            r == self.spec_complement(),
    {
        Self::from_bits_truncate(!self.0)
    }

    /// The text of the value; see `spec_debug_text`.
    pub fn debug_text(&self) -> (r: String)
        ensures
            r@ == Self::spec_debug_text(self@),
    {
        let names: [&'static str; 4] = ["READABLE", "WRITABLE", "DYNAMIC", "READWRITE"];
        let values: [u32; 4] = [0x1, 0x2, 0x4, 0x3];
        assert(names@.map_values(|n: &'static str| n@) =~= seq!["READABLE"@, "WRITABLE"@, "DYNAMIC"@, "READWRITE"@]);
        assert(values@ =~= seq![0x1u32, 0x2u32, 0x4u32, 0x3u32]);
        crate::flags::flag_text_of("DataFlags", names.as_slice(), values.as_slice(), self.0)
    }
}

impl core::ops::BitOr for DataFlags {
    type Output = Self;

    /// `union`.
    fn bitor(self, other: Self) -> (r: Self)
        ensures
            r == self.spec_union(other),
    {
        self.union(other)
    }
}

impl vstd::std_specs::ops::BitOrSpecImpl for DataFlags {
    open spec fn obeys_bitor_spec() -> bool {
        true
    }

    open spec fn bitor_req(self, other: Self) -> bool {
        true
    }

    open spec fn bitor_spec(self, other: Self) -> Self {
        self.spec_union(other)
    }
}

impl core::ops::BitAnd for DataFlags {
    type Output = Self;

    /// `intersection`.
    fn bitand(self, other: Self) -> (r: Self)
        ensures
            r == self.spec_intersection(other),
    {
        self.intersection(other)
    }
}

impl vstd::std_specs::ops::BitAndSpecImpl for DataFlags {
    open spec fn obeys_bitand_spec() -> bool {
        true
    }

    open spec fn bitand_req(self, other: Self) -> bool {
        true
    }

    open spec fn bitand_spec(self, other: Self) -> Self {
        self.spec_intersection(other)
    }
}

impl core::ops::BitXor for DataFlags {
    type Output = Self;

    /// `symmetric_difference`.
    fn bitxor(self, other: Self) -> (r: Self)
        ensures
            r == self.spec_symmetric_difference(other),
    {
        self.symmetric_difference(other)
    }
}

impl vstd::std_specs::ops::BitXorSpecImpl for DataFlags {
    open spec fn obeys_bitxor_spec() -> bool {
        true
    }

    open spec fn bitxor_req(self, other: Self) -> bool {
        true
    }

    open spec fn bitxor_spec(self, other: Self) -> Self {
        self.spec_symmetric_difference(other)
    }
}

impl core::ops::Sub for DataFlags {
    type Output = Self;

    /// `difference`.
    fn sub(self, other: Self) -> (r: Self)
        ensures
            r == self.spec_difference(other),
    {
        self.difference(other)
    }
}

impl vstd::std_specs::ops::SubSpecImpl for DataFlags {
    open spec fn obeys_sub_spec() -> bool {
        true
    }

    open spec fn sub_req(self, other: Self) -> bool {
        true
    }

    open spec fn sub_spec(self, other: Self) -> Self {
        self.spec_difference(other)
    }
}

impl core::ops::Not for DataFlags {
    type Output = Self;

    /// `complement`.
    fn not(self) -> (r: Self)
        ensures
            r == self.spec_complement(),
    {
        self.complement()
    }
}

impl vstd::std_specs::ops::NotSpecImpl for DataFlags {
    open spec fn obeys_not_spec() -> bool {
        true
    }

    open spec fn not_req(self) -> bool {
        true
    }

    open spec fn not_spec(self) -> Self {
        self.spec_complement()
    }
}

/// One data plane of a buffer.
pub struct Data(spa_data);

impl View for Data {
    type V = spa_data;

    closed spec fn view(&self) -> spa_data {
        self.0
    }
}

impl Data {
    /// Two planes are equal exactly when their views are.
    pub proof fn lemma_eq_iff_view_eq(a: Self, b: Self)
        ensures
            (a == b) <==> (a@ == b@),
    {
    }

    /// A plane's mapped memory, where it has any, is `maxsize` bytes long.
    #[verifier::type_invariant]
    spec fn memory_spans_maxsize(self) -> bool {
        self.0.wf()
    }

    /// The view of a raw data plane, whose mapped memory must be `maxsize`
    /// bytes long.
    pub fn from_raw(raw: spa_data) -> (r: Self)
        requires
            raw.wf(),
        ensures
            r@ == raw,
    {
        Self(raw)
    }

    /// The raw plane; its mapped memory, where it has any, is `maxsize`
    /// bytes long.
    pub fn as_raw(&self) -> (r: &spa_data)
        ensures
            *r == self@,
            r.wf(),
    {
        proof {
            use_type_invariant(self);
        }
        &self.0
    }

    pub fn type_(&self) -> (r: DataType)
        ensures
            r@ == self@.type_,
    {
        DataType::from_raw(self.0.type_)
    }

    /// The access flags, undefined bits kept.
    pub fn flags(&self) -> (r: DataFlags)
        ensures
            r@ == self@.flags,
    {
        DataFlags::from_bits_retain(self.0.flags)
    }

    /// The file descriptor, as the raw descriptor type takes it: the low 32
    /// bits of the stored value. Whether it is valid is not checked.
    pub fn fd(&self) -> (r: i32)
        ensures
            r == self@.fd as i32,
    {
        self.0.fd as i32
    }

    /// The mapped memory, `None` when the data pointer is null: the whole
    /// area, `maxsize` bytes long. Writes through the slice land in the
    /// plane's memory; nothing else of the plane changes.
    pub fn data(&mut self) -> (r: Option<&mut [u8]>)
        ensures
            r is Some <==> old(self)@.data is Some,
            r is None ==> final(self)@ == old(self)@,
            r matches Some(s) ==> {
                &&& s@ == old(self)@.data.unwrap()@
                &&& s@.len() == old(self)@.maxsize
                &&& final(self)@.data is Some
                &&& final(self)@.data.unwrap()@ == final(s)@
                &&& old(self)@.same_but_memory(final(self)@)
            },
    {
        proof {
            use_type_invariant(&*self);
        }
        match self.0.memory_mut() {
            Some(memory) => Some(memory),
            None => None,
        }
    }

    /// The chunk of the plane; the chunk pointer must not be null.
    pub fn chunk(&self) -> (r: &Chunk)
        requires
            self@.chunk is Some,
        ensures
            *r == self@.chunk.unwrap(),
    {
        self.0.chunk.as_ref().unwrap()
    }

    /// The chunk of the plane, for writing; the chunk pointer must not be
    /// null. Writes through the reference land in the plane's chunk;
    /// nothing else of the plane changes.
    pub fn chunk_mut(&mut self) -> (r: &mut Chunk)
        requires
            old(self)@.chunk is Some,
        ensures
            *r == old(self)@.chunk.unwrap(),
            final(self)@.chunk == Some(*final(r)),
            old(self)@.same_but_chunk(final(self)@),
    {
        proof {
            use_type_invariant(&*self);
        }
        self.0.chunk_mut().unwrap()
    }
}

/// Flags of a chunk. Its text form is `debug_text`.
#[derive(Clone, Copy, PartialEq, Eq, Structural)]
pub struct ChunkFlags(i32);

impl View for ChunkFlags {
    type V = i32;

    closed spec fn view(&self) -> i32 {
        self.0
    }
}

impl ChunkFlags {
    /// The bits of the flags that are defined.
    pub open spec fn spec_all_bits() -> i32 {
        0x1
    }

    /// Chunk data is corrupted in some way
    #[allow(non_snake_case)]
    pub fn CORRUPTED() -> (r: Self)
        ensures
            r@ == 0x1,
    {
        Self(0x1)
    }

    /// The flags with the given bits, undefined bits kept.
    pub closed spec fn spec_from_bits_retain(bits: i32) -> Self {
        Self(bits)
    }

    /// The flags with the given bits, undefined bits dropped.
    pub closed spec fn spec_from_bits_truncate(bits: i32) -> Self {
        Self(bits & 0x1)
    }

    /// The flags with the given bits when every set bit is a defined flag.
    pub closed spec fn spec_from_bits(bits: i32) -> Option<Self> {
        if bits & 0x1 == bits {
            Some(Self(bits))
        } else {
            None
        }
    }

    /// Whether every flag of `other` is set in `self`.
    pub open spec fn spec_contains(self, other: Self) -> bool {
        self@ & other@ == other@
    }

    /// Whether some flag of `other` is set in `self`.
    pub open spec fn spec_intersects(self, other: Self) -> bool {
        self@ & other@ != 0
    }

    /// The flags set in `self` or in `other`.
    pub closed spec fn spec_union(self, other: Self) -> Self {
        Self(self.0 | other.0)
    }

    /// The flags set in `self` and not in `other`.
    pub closed spec fn spec_difference(self, other: Self) -> Self {
        Self(self.0 & !other.0)
    }

    /// The flags set in both `self` and `other`.
    pub closed spec fn spec_intersection(self, other: Self) -> Self {
        Self(self.0 & other.0)
    }

    /// The flags set in exactly one of `self` and `other`.
    pub closed spec fn spec_symmetric_difference(self, other: Self) -> Self {
        Self(self.0 ^ other.0)
    }

    /// The defined flags not set in `self`.
    pub closed spec fn spec_complement(self) -> Self {
        Self(!self.0 & 0x1)
    }

    /// The bits of each flag value built by the operations above.
    pub proof fn lemma_spec_bits(bits: i32, flags: Self, other: Self)
        ensures
            Self::spec_from_bits_retain(bits)@ == bits,
            Self::spec_from_bits_truncate(bits)@ == bits & Self::spec_all_bits(),
            Self::spec_from_bits(bits) matches Some(f) ==> f@ == bits,
            flags.spec_union(other)@ == flags@ | other@,
            flags.spec_difference(other)@ == flags@ & !other@,
            flags.spec_intersection(other)@ == flags@ & other@,
            flags.spec_symmetric_difference(other)@ == flags@ ^ other@,
            flags.spec_complement()@ == !flags@ & Self::spec_all_bits(),
    {
    }

    /// The text of a flag value: the type's name and, in brackets, the
    /// names of the set flags joined by ` | `, then any bits no name covers
    /// in hex; `0x0` in brackets when no bit is set.
    pub open spec fn spec_debug_text(bits: i32) -> Seq<char> {
        crate::flags::flag_text("ChunkFlags"@, seq!["CORRUPTED"@], seq![0x1u32], bits as u32)
    }

    /// Two flag values are equal exactly when their bits are.
    pub proof fn lemma_eq_iff_bits_eq(a: Self, b: Self)
        ensures
            (a == b) <==> (a@ == b@),
    {
    }

    /// The laws of the flag operations:
    /// - truncating keeps only defined bits, so `from_bits` accepts the
    ///   truncated bits unchanged and truncating them again changes nothing;
    /// - after `insert(other)` the flags contain `other` and whatever they
    ///   contained before;
    /// - after `remove(other)` the flags share no flag with `other`;
    /// - `contains(other)` holds exactly when `union(other)` changes nothing.
    pub proof fn lemma_flag_laws(bits: i32, flags: Self, other: Self)
        ensures
            Self::spec_from_bits(Self::spec_from_bits_truncate(bits)@)
                == Some(Self::spec_from_bits_truncate(bits)),
            Self::spec_from_bits_truncate(Self::spec_from_bits_truncate(bits)@)
                == Self::spec_from_bits_truncate(bits),
            flags.spec_union(other).spec_contains(other),
            flags.spec_union(other).spec_contains(flags),
            !flags.spec_difference(other).spec_intersects(other),
            flags.spec_contains(other) <==> flags.spec_union(other) == flags,
    {
        crate::flags::lemma_signed_flag_laws(bits, other@, 0x1);
        crate::flags::lemma_signed_flag_laws(flags@, other@, 0x1);
    }

    /// The text of every value whose bits are all defined, and of one value
    /// with a bit no flag defines: the names of the set flags in the order
    /// the flags are declared, a flag being named when all its bits are set
    /// and it shows some bit not shown before, then any bits left in hex.
    pub proof fn lemma_debug_text_values()
        ensures
            Self::spec_debug_text(0x0i32) == "ChunkFlags"@ + "(0x0)"@,
            Self::spec_debug_text(0x1i32) == "ChunkFlags"@ + "("@ + "CORRUPTED"@ + ")"@,
            Self::spec_debug_text(0x3i32) == "ChunkFlags"@ + "("@ + "CORRUPTED"@ + " | "@ + "0x"@ + "2"@ + ")"@,
    {
        reveal_with_fuel(crate::flags::walk_text, 3);
        reveal_with_fuel(crate::flags::hex, 3);
        assert((0x0i32 as u32) == 0x0u32 && (0x1i32 as u32) == 0x1u32 && (0x3i32 as u32) == 0x3u32 && 0x1u32 & !0x1u32 == 0x0u32 && 0x1u32 & 0x1u32 == 0x1u32 && 0x3u32 & !0x1u32 == 0x2u32 && 0x3u32 & 0x1u32 == 0x1u32) by (bit_vector);
    }

    /// No flag set.
    pub fn empty() -> (r: Self)
        ensures
            r@ == 0,
    {
        Self(0)
    }

    /// Every defined flag set.
    pub fn all() -> (r: Self)
        ensures
            r@ == Self::spec_all_bits(),
    {
        Self(0x1)
    }

    pub fn bits(&self) -> (r: i32)
        ensures
            r == self@,
    {
        self.0
    }

    /// The flags of `bits`, undefined bits kept.
    pub fn from_bits_retain(bits: i32) -> (r: Self)
        ensures
            r@ == bits,
            r == Self::spec_from_bits_retain(bits),
    {
        Self(bits)
    }

    /// The flags of `bits`, undefined bits dropped.
    pub fn from_bits_truncate(bits: i32) -> (r: Self)
        ensures
            r@ == bits & Self::spec_all_bits(),
            r == Self::spec_from_bits_truncate(bits),
    {
        Self(bits & 0x1)
    }

    /// The flags of `bits` when every set bit is a defined flag, else `None`.
    pub fn from_bits(bits: i32) -> (r: Option<Self>)
        ensures
            r is Some <==> bits & Self::spec_all_bits() == bits,
            r matches Some(f) ==> f@ == bits,
            r == Self::spec_from_bits(bits),
    {
        if bits & 0x1 == bits {
            Some(Self(bits))
        } else {
            None
        }
    }

    pub fn is_empty(&self) -> (r: bool)
        ensures
            r == (self@ == 0),
    {
        self.0 == 0
    }

    /// Whether every flag of `other` is set in `self`.
    pub fn contains(&self, other: Self) -> (r: bool)
        ensures
            r == self.spec_contains(other),
    {
        self.0 & other.0 == other.0
    }

    /// Whether some flag of `other` is set in `self`.
    pub fn intersects(&self, other: Self) -> (r: bool)
        ensures
            r == self.spec_intersects(other),
    {
        self.0 & other.0 != 0
    }

    /// Sets the flags of `other`.
    pub fn insert(&mut self, other: Self)
        ensures
            final(self)@ == old(self)@ | other@,
            *final(self) == old(self).spec_union(other),
    {
        self.0 = self.0 | other.0;
    }

    /// Clears the flags of `other`.
    pub fn remove(&mut self, other: Self)
        ensures
            final(self)@ == old(self)@ & !other@,
            *final(self) == old(self).spec_difference(other),
    {
        self.0 = self.0 & !other.0;
    }

    /// The flags set in `self` or in `other`.
    pub fn union(self, other: Self) -> (r: Self)
        ensures
            r@ == self@ | other@,
            r == self.spec_union(other),
    {
        Self(self.0 | other.0)
    }

    /// Whether every defined flag is set.
    pub fn is_all(&self) -> (r: bool)
        ensures
            r == (Self::spec_all_bits() | self@ == self@),
    {
        0x1 | self.0 == self.0
    }

    /// Flips the flags of `other`.
    pub fn toggle(&mut self, other: Self)
        ensures
            final(self)@ == old(self)@ ^ other@,
            *final(self) == old(self).spec_symmetric_difference(other),
    {
        self.0 = self.0 ^ other.0;
    }

    /// Sets the flags of `other` when `value` holds, clears them otherwise.
    pub fn set(&mut self, other: Self, value: bool)
        ensures
            value ==> *final(self) == old(self).spec_union(other),
            !value ==> *final(self) == old(self).spec_difference(other),
            final(self)@ == if value { old(self)@ | other@ } else { old(self)@ & !other@ },
    {
        if value {
            self.insert(other);
        } else {
            self.remove(other);
        }
    }

    /// The flags set in both `self` and `other`.
    pub fn intersection(self, other: Self) -> (r: Self)
        ensures
            r@ == self@ & other@,
            r == self.spec_intersection(other),
    {
        Self(self.0 & other.0)
    }

    /// The flags set in `self` and not in `other`.
    pub fn difference(self, other: Self) -> (r: Self)
        ensures
            r@ == self@ & !other@,
            r == self.spec_difference(other),
    {
        Self(self.0 & !other.0)
    }

    /// The flags set in exactly one of `self` and `other`.
    pub fn symmetric_difference(self, other: Self) -> (r: Self)
        ensures
            r@ == self@ ^ other@,
            r == self.spec_symmetric_difference(other),
    {
        Self(self.0 ^ other.0)
    }

    /// The defined flags not set in `self`.
    pub fn complement(self) -> (r: Self)
        ensures
            r@ == !self@ & Self::spec_all_bits(),
            r == self.spec_complement(),
    {
        Self::from_bits_truncate(!self.0)
    }

    /// The text of the value; see `spec_debug_text`.
    pub fn debug_text(&self) -> (r: String)
        ensures
            r@ == Self::spec_debug_text(self@),
    {
        let names: [&'static str; 1] = ["CORRUPTED"];
        let values: [u32; 1] = [0x1];
        assert(names@.map_values(|n: &'static str| n@) =~= seq!["CORRUPTED"@]);
        assert(values@ =~= seq![0x1u32]);
        crate::flags::flag_text_of("ChunkFlags", names.as_slice(), values.as_slice(), self.0 as u32)
    }
}

impl core::ops::BitOr for ChunkFlags {
    type Output = Self;

    /// `union`.
    fn bitor(self, other: Self) -> (r: Self)
        ensures
            r == self.spec_union(other),
    {
        self.union(other)
    }
}

impl vstd::std_specs::ops::BitOrSpecImpl for ChunkFlags {
    open spec fn obeys_bitor_spec() -> bool {
        true
    }

    open spec fn bitor_req(self, other: Self) -> bool {
        true
    }

    open spec fn bitor_spec(self, other: Self) -> Self {
        self.spec_union(other)
    }
}

impl core::ops::BitAnd for ChunkFlags {
    type Output = Self;

    /// `intersection`.
    fn bitand(self, other: Self) -> (r: Self)
        ensures
            r == self.spec_intersection(other),
    {
        self.intersection(other)
    }
}

impl vstd::std_specs::ops::BitAndSpecImpl for ChunkFlags {
    open spec fn obeys_bitand_spec() -> bool {
        true
    }

    open spec fn bitand_req(self, other: Self) -> bool {
        true
    }

    open spec fn bitand_spec(self, other: Self) -> Self {
        self.spec_intersection(other)
    }
}

impl core::ops::BitXor for ChunkFlags {
    type Output = Self;

    /// `symmetric_difference`.
    fn bitxor(self, other: Self) -> (r: Self)
        ensures
            r == self.spec_symmetric_difference(other),
    {
        self.symmetric_difference(other)
    }
}

impl vstd::std_specs::ops::BitXorSpecImpl for ChunkFlags {
    open spec fn obeys_bitxor_spec() -> bool {
        true
    }

    open spec fn bitxor_req(self, other: Self) -> bool {
        true
    }

    open spec fn bitxor_spec(self, other: Self) -> Self {
        self.spec_symmetric_difference(other)
    }
}

impl core::ops::Sub for ChunkFlags {
    type Output = Self;

    /// `difference`.
    fn sub(self, other: Self) -> (r: Self)
        ensures
            r == self.spec_difference(other),
    {
        self.difference(other)
    }
}

impl vstd::std_specs::ops::SubSpecImpl for ChunkFlags {
    open spec fn obeys_sub_spec() -> bool {
        true
    }

    open spec fn sub_req(self, other: Self) -> bool {
        true
    }

    open spec fn sub_spec(self, other: Self) -> Self {
        self.spec_difference(other)
    }
}

impl core::ops::Not for ChunkFlags {
    type Output = Self;

    /// `complement`.
    fn not(self) -> (r: Self)
        ensures
            r == self.spec_complement(),
    {
        self.complement()
    }
}

impl vstd::std_specs::ops::NotSpecImpl for ChunkFlags {
    open spec fn obeys_not_spec() -> bool {
        true
    }

    open spec fn not_req(self) -> bool {
        true
    }

    open spec fn not_spec(self) -> Self {
        self.spec_complement()
    }
}

/// The valid part of a data plane's memory.
#[derive(PartialEq, Eq, Structural)]
pub struct Chunk(spa_chunk);

impl View for Chunk {
    type V = spa_chunk;

    closed spec fn view(&self) -> spa_chunk {
        self.0
    }
}

impl Chunk {
    /// Two values are equal exactly when their views are.
    pub proof fn lemma_eq_iff_view_eq(a: Self, b: Self)
        ensures
            (a == b) <==> (a@ == b@),
    {
    }
}

impl Chunk {
    /// The view of a raw structure.
    pub fn from_raw(raw: spa_chunk) -> (r: Self)
        ensures
            r@ == raw,
    {
        Self(raw)
    }

    pub fn as_raw(&self) -> (r: &spa_chunk)
        ensures
            *r == self@,
    {
        &self.0
    }

    pub fn size(&self) -> (r: u32)
        ensures
            r == self@.size,
    {
        self.0.size
    }

    /// Access to the size for writing: what is written lands in the chunk.
    pub fn size_mut(&mut self) -> (r: &mut u32)
        ensures
            *r == old(self)@.size,
            final(self)@.size == *final(r),
            final(self)@.offset == old(self)@.offset,
            final(self)@.stride == old(self)@.stride,
            final(self)@.flags == old(self)@.flags,
    {
        &mut self.0.size
    }

    pub fn offset(&self) -> (r: u32)
        ensures
            r == self@.offset,
    {
        self.0.offset
    }

    /// Access to the offset for writing: what is written lands in the chunk.
    pub fn offset_mut(&mut self) -> (r: &mut u32)
        ensures
            *r == old(self)@.offset,
            final(self)@.offset == *final(r),
            final(self)@.size == old(self)@.size,
            final(self)@.stride == old(self)@.stride,
            final(self)@.flags == old(self)@.flags,
    {
        &mut self.0.offset
    }

    pub fn stride(&self) -> (r: i32)
        ensures
            r == self@.stride,
    {
        self.0.stride
    }

    /// Access to the stride for writing: what is written lands in the chunk.
    pub fn stride_mut(&mut self) -> (r: &mut i32)
        ensures
            *r == old(self)@.stride,
            final(self)@.stride == *final(r),
            final(self)@.offset == old(self)@.offset,
            final(self)@.size == old(self)@.size,
            final(self)@.flags == old(self)@.flags,
    {
        &mut self.0.stride
    }

    /// The chunk flags, undefined bits kept.
    pub fn flags(&self) -> (r: ChunkFlags)
        ensures
            r@ == self@.flags,
    {
        ChunkFlags::from_bits_retain(self.0.flags)
    }
}

/// A kind of buffer metadata, identified by its SPA metadata type.
pub trait Metadata {
    const META_TYPE: u32;
}

/// Flags of a buffer's header metadata. Its text form is `debug_text`.
#[derive(Clone, Copy, PartialEq, Eq, Structural)]
pub struct MetaHeaderFlags(u32);

impl View for MetaHeaderFlags {
    type V = u32;

    closed spec fn view(&self) -> u32 {
        self.0
    }
}

impl MetaHeaderFlags {
    /// The bits of the flags that are defined.
    pub open spec fn spec_all_bits() -> u32 {
        0x3f
    }

    /// Buffer is discontinuous
    #[allow(non_snake_case)]
    pub fn DISCONT() -> (r: Self)
        ensures
            r@ == 0x1,
    {
        Self(0x1)
    }

    /// Buffer data is corrupted
    #[allow(non_snake_case)]
    pub fn CORRUPTED() -> (r: Self)
        ensures
            r@ == 0x2,
    {
        Self(0x2)
    }

    /// Buffer contains a codec config marker
    #[allow(non_snake_case)]
    pub fn MARKER() -> (r: Self)
        ensures
            r@ == 0x4,
    {
        Self(0x4)
    }

    /// Buffer contains header data
    #[allow(non_snake_case)]
    pub fn HEADER() -> (r: Self)
        ensures
            r@ == 0x8,
    {
        Self(0x8)
    }

    /// Buffer represents a gap in the stream
    #[allow(non_snake_case)]
    pub fn GAP() -> (r: Self)
        ensures
            r@ == 0x10,
    {
        Self(0x10)
    }

    /// Buffer is a delta unit (not self-contained)
    #[allow(non_snake_case)]
    pub fn DELTA_UNIT() -> (r: Self)
        ensures
            r@ == 0x20,
    {
        Self(0x20)
    }

    /// The flags with the given bits, undefined bits kept.
    pub closed spec fn spec_from_bits_retain(bits: u32) -> Self {
        Self(bits)
    }

    /// The flags with the given bits, undefined bits dropped.
    pub closed spec fn spec_from_bits_truncate(bits: u32) -> Self {
        Self(bits & 0x3f)
    }

    /// The flags with the given bits when every set bit is a defined flag.
    pub closed spec fn spec_from_bits(bits: u32) -> Option<Self> {
        if bits & 0x3f == bits {
            Some(Self(bits))
        } else {
            None
        }
    }

    /// Whether every flag of `other` is set in `self`.
    pub open spec fn spec_contains(self, other: Self) -> bool {
        self@ & other@ == other@
    }

    /// Whether some flag of `other` is set in `self`.
    pub open spec fn spec_intersects(self, other: Self) -> bool {
        self@ & other@ != 0
    }

    /// The flags set in `self` or in `other`.
    pub closed spec fn spec_union(self, other: Self) -> Self {
        Self(self.0 | other.0)
    }

    /// The flags set in `self` and not in `other`.
    pub closed spec fn spec_difference(self, other: Self) -> Self {
        Self(self.0 & !other.0)
    }

    /// The flags set in both `self` and `other`.
    pub closed spec fn spec_intersection(self, other: Self) -> Self {
        Self(self.0 & other.0)
    }

    /// The flags set in exactly one of `self` and `other`.
    pub closed spec fn spec_symmetric_difference(self, other: Self) -> Self {
        Self(self.0 ^ other.0)
    }

    /// The defined flags not set in `self`.
    pub closed spec fn spec_complement(self) -> Self {
        Self(!self.0 & 0x3f)
    }

    /// The bits of each flag value built by the operations above.
    pub proof fn lemma_spec_bits(bits: u32, flags: Self, other: Self)
        ensures
            Self::spec_from_bits_retain(bits)@ == bits,
            Self::spec_from_bits_truncate(bits)@ == bits & Self::spec_all_bits(),
            Self::spec_from_bits(bits) matches Some(f) ==> f@ == bits,
            flags.spec_union(other)@ == flags@ | other@,
            flags.spec_difference(other)@ == flags@ & !other@,
            flags.spec_intersection(other)@ == flags@ & other@,
            flags.spec_symmetric_difference(other)@ == flags@ ^ other@,
            flags.spec_complement()@ == !flags@ & Self::spec_all_bits(),
    {
    }

    /// The text of a flag value: the type's name and, in brackets, the
    /// names of the set flags joined by ` | `, then any bits no name covers
    /// in hex; `0x0` in brackets when no bit is set.
    pub open spec fn spec_debug_text(bits: u32) -> Seq<char> {
        crate::flags::flag_text("MetaHeaderFlags"@, seq!["DISCONT"@, "CORRUPTED"@, "MARKER"@, "HEADER"@, "GAP"@, "DELTA_UNIT"@], seq![0x1u32, 0x2u32, 0x4u32, 0x8u32, 0x10u32, 0x20u32], bits)
    }

    /// Two flag values are equal exactly when their bits are.
    pub proof fn lemma_eq_iff_bits_eq(a: Self, b: Self)
        ensures
            (a == b) <==> (a@ == b@),
    {
    }

    /// The laws of the flag operations:
    /// - truncating keeps only defined bits, so `from_bits` accepts the
    ///   truncated bits unchanged and truncating them again changes nothing;
    /// - after `insert(other)` the flags contain `other` and whatever they
    ///   contained before;
    /// - after `remove(other)` the flags share no flag with `other`;
    /// - `contains(other)` holds exactly when `union(other)` changes nothing.
    pub proof fn lemma_flag_laws(bits: u32, flags: Self, other: Self)
        ensures
            Self::spec_from_bits(Self::spec_from_bits_truncate(bits)@)
                == Some(Self::spec_from_bits_truncate(bits)),
            Self::spec_from_bits_truncate(Self::spec_from_bits_truncate(bits)@)
                == Self::spec_from_bits_truncate(bits),
            flags.spec_union(other).spec_contains(other),
            flags.spec_union(other).spec_contains(flags),
            !flags.spec_difference(other).spec_intersects(other),
            flags.spec_contains(other) <==> flags.spec_union(other) == flags,
    {
        crate::flags::lemma_truncate_is_representable(bits, 0x3f);
        crate::flags::lemma_insert_contains(flags@, other@);
        crate::flags::lemma_remove_disjoint(flags@, other@);
        crate::flags::lemma_contains_iff_union_unchanged(flags@, other@);
    }

    /// The text of every value whose bits are all defined, and of one value
    /// with a bit no flag defines: the names of the set flags in the order
    /// the flags are declared, a flag being named when all its bits are set
    /// and it shows some bit not shown before, then any bits left in hex.
    pub proof fn lemma_debug_text_values()
        ensures
            Self::spec_debug_text(0x0u32) == "MetaHeaderFlags"@ + "(0x0)"@,
            Self::spec_debug_text(0x1u32) == "MetaHeaderFlags"@ + "("@ + "DISCONT"@ + ")"@,
            Self::spec_debug_text(0x2u32) == "MetaHeaderFlags"@ + "("@ + "CORRUPTED"@ + ")"@,
            Self::spec_debug_text(0x3u32) == "MetaHeaderFlags"@ + "("@ + "DISCONT"@ + " | "@ + "CORRUPTED"@ + ")"@,
            Self::spec_debug_text(0x4u32) == "MetaHeaderFlags"@ + "("@ + "MARKER"@ + ")"@,
            Self::spec_debug_text(0x5u32) == "MetaHeaderFlags"@ + "("@ + "DISCONT"@ + " | "@ + "MARKER"@ + ")"@,
            Self::spec_debug_text(0x6u32) == "MetaHeaderFlags"@ + "("@ + "CORRUPTED"@ + " | "@ + "MARKER"@ + ")"@,
            Self::spec_debug_text(0x7u32) == "MetaHeaderFlags"@ + "("@ + "DISCONT"@ + " | "@ + "CORRUPTED"@ + " | "@ + "MARKER"@ + ")"@,
            Self::spec_debug_text(0x8u32) == "MetaHeaderFlags"@ + "("@ + "HEADER"@ + ")"@,
            Self::spec_debug_text(0x9u32) == "MetaHeaderFlags"@ + "("@ + "DISCONT"@ + " | "@ + "HEADER"@ + ")"@,
            Self::spec_debug_text(0xau32) == "MetaHeaderFlags"@ + "("@ + "CORRUPTED"@ + " | "@ + "HEADER"@ + ")"@,
            Self::spec_debug_text(0xbu32) == "MetaHeaderFlags"@ + "("@ + "DISCONT"@ + " | "@ + "CORRUPTED"@ + " | "@ + "HEADER"@ + ")"@,
            Self::spec_debug_text(0xcu32) == "MetaHeaderFlags"@ + "("@ + "MARKER"@ + " | "@ + "HEADER"@ + ")"@,
            Self::spec_debug_text(0xdu32) == "MetaHeaderFlags"@ + "("@ + "DISCONT"@ + " | "@ + "MARKER"@ + " | "@ + "HEADER"@ + ")"@,
            Self::spec_debug_text(0xeu32) == "MetaHeaderFlags"@ + "("@ + "CORRUPTED"@ + " | "@ + "MARKER"@ + " | "@ + "HEADER"@ + ")"@,
            Self::spec_debug_text(0xfu32) == "MetaHeaderFlags"@ + "("@ + "DISCONT"@ + " | "@ + "CORRUPTED"@ + " | "@ + "MARKER"@ + " | "@ + "HEADER"@ + ")"@,
            Self::spec_debug_text(0x10u32) == "MetaHeaderFlags"@ + "("@ + "GAP"@ + ")"@,
            Self::spec_debug_text(0x11u32) == "MetaHeaderFlags"@ + "("@ + "DISCONT"@ + " | "@ + "GAP"@ + ")"@,
            Self::spec_debug_text(0x12u32) == "MetaHeaderFlags"@ + "("@ + "CORRUPTED"@ + " | "@ + "GAP"@ + ")"@,
            Self::spec_debug_text(0x13u32) == "MetaHeaderFlags"@ + "("@ + "DISCONT"@ + " | "@ + "CORRUPTED"@ + " | "@ + "GAP"@ + ")"@,
            Self::spec_debug_text(0x14u32) == "MetaHeaderFlags"@ + "("@ + "MARKER"@ + " | "@ + "GAP"@ + ")"@,
            Self::spec_debug_text(0x15u32) == "MetaHeaderFlags"@ + "("@ + "DISCONT"@ + " | "@ + "MARKER"@ + " | "@ + "GAP"@ + ")"@,
            Self::spec_debug_text(0x16u32) == "MetaHeaderFlags"@ + "("@ + "CORRUPTED"@ + " | "@ + "MARKER"@ + " | "@ + "GAP"@ + ")"@,
            Self::spec_debug_text(0x17u32) == "MetaHeaderFlags"@ + "("@ + "DISCONT"@ + " | "@ + "CORRUPTED"@ + " | "@ + "MARKER"@ + " | "@ + "GAP"@ + ")"@,
            Self::spec_debug_text(0x18u32) == "MetaHeaderFlags"@ + "("@ + "HEADER"@ + " | "@ + "GAP"@ + ")"@,
            Self::spec_debug_text(0x19u32) == "MetaHeaderFlags"@ + "("@ + "DISCONT"@ + " | "@ + "HEADER"@ + " | "@ + "GAP"@ + ")"@,
            Self::spec_debug_text(0x1au32) == "MetaHeaderFlags"@ + "("@ + "CORRUPTED"@ + " | "@ + "HEADER"@ + " | "@ + "GAP"@ + ")"@,
            Self::spec_debug_text(0x1bu32) == "MetaHeaderFlags"@ + "("@ + "DISCONT"@ + " | "@ + "CORRUPTED"@ + " | "@ + "HEADER"@ + " | "@ + "GAP"@ + ")"@,
            Self::spec_debug_text(0x1cu32) == "MetaHeaderFlags"@ + "("@ + "MARKER"@ + " | "@ + "HEADER"@ + " | "@ + "GAP"@ + ")"@,
            Self::spec_debug_text(0x1du32) == "MetaHeaderFlags"@ + "("@ + "DISCONT"@ + " | "@ + "MARKER"@ + " | "@ + "HEADER"@ + " | "@ + "GAP"@ + ")"@,
            Self::spec_debug_text(0x1eu32) == "MetaHeaderFlags"@ + "("@ + "CORRUPTED"@ + " | "@ + "MARKER"@ + " | "@ + "HEADER"@ + " | "@ + "GAP"@ + ")"@,
            Self::spec_debug_text(0x1fu32) == "MetaHeaderFlags"@ + "("@ + "DISCONT"@ + " | "@ + "CORRUPTED"@ + " | "@ + "MARKER"@ + " | "@ + "HEADER"@ + " | "@ + "GAP"@ + ")"@,
            Self::spec_debug_text(0x20u32) == "MetaHeaderFlags"@ + "("@ + "DELTA_UNIT"@ + ")"@,
            Self::spec_debug_text(0x21u32) == "MetaHeaderFlags"@ + "("@ + "DISCONT"@ + " | "@ + "DELTA_UNIT"@ + ")"@,
            Self::spec_debug_text(0x22u32) == "MetaHeaderFlags"@ + "("@ + "CORRUPTED"@ + " | "@ + "DELTA_UNIT"@ + ")"@,
            Self::spec_debug_text(0x23u32) == "MetaHeaderFlags"@ + "("@ + "DISCONT"@ + " | "@ + "CORRUPTED"@ + " | "@ + "DELTA_UNIT"@ + ")"@,
            Self::spec_debug_text(0x24u32) == "MetaHeaderFlags"@ + "("@ + "MARKER"@ + " | "@ + "DELTA_UNIT"@ + ")"@,
            Self::spec_debug_text(0x25u32) == "MetaHeaderFlags"@ + "("@ + "DISCONT"@ + " | "@ + "MARKER"@ + " | "@ + "DELTA_UNIT"@ + ")"@,
            Self::spec_debug_text(0x26u32) == "MetaHeaderFlags"@ + "("@ + "CORRUPTED"@ + " | "@ + "MARKER"@ + " | "@ + "DELTA_UNIT"@ + ")"@,
            Self::spec_debug_text(0x27u32) == "MetaHeaderFlags"@ + "("@ + "DISCONT"@ + " | "@ + "CORRUPTED"@ + " | "@ + "MARKER"@ + " | "@ + "DELTA_UNIT"@ + ")"@,
            Self::spec_debug_text(0x28u32) == "MetaHeaderFlags"@ + "("@ + "HEADER"@ + " | "@ + "DELTA_UNIT"@ + ")"@,
            Self::spec_debug_text(0x29u32) == "MetaHeaderFlags"@ + "("@ + "DISCONT"@ + " | "@ + "HEADER"@ + " | "@ + "DELTA_UNIT"@ + ")"@,
            Self::spec_debug_text(0x2au32) == "MetaHeaderFlags"@ + "("@ + "CORRUPTED"@ + " | "@ + "HEADER"@ + " | "@ + "DELTA_UNIT"@ + ")"@,
            Self::spec_debug_text(0x2bu32) == "MetaHeaderFlags"@ + "("@ + "DISCONT"@ + " | "@ + "CORRUPTED"@ + " | "@ + "HEADER"@ + " | "@ + "DELTA_UNIT"@ + ")"@,
            Self::spec_debug_text(0x2cu32) == "MetaHeaderFlags"@ + "("@ + "MARKER"@ + " | "@ + "HEADER"@ + " | "@ + "DELTA_UNIT"@ + ")"@,
            Self::spec_debug_text(0x2du32) == "MetaHeaderFlags"@ + "("@ + "DISCONT"@ + " | "@ + "MARKER"@ + " | "@ + "HEADER"@ + " | "@ + "DELTA_UNIT"@ + ")"@,
            Self::spec_debug_text(0x2eu32) == "MetaHeaderFlags"@ + "("@ + "CORRUPTED"@ + " | "@ + "MARKER"@ + " | "@ + "HEADER"@ + " | "@ + "DELTA_UNIT"@ + ")"@,
            Self::spec_debug_text(0x2fu32) == "MetaHeaderFlags"@ + "("@ + "DISCONT"@ + " | "@ + "CORRUPTED"@ + " | "@ + "MARKER"@ + " | "@ + "HEADER"@ + " | "@ + "DELTA_UNIT"@ + ")"@,
            Self::spec_debug_text(0x30u32) == "MetaHeaderFlags"@ + "("@ + "GAP"@ + " | "@ + "DELTA_UNIT"@ + ")"@,
            Self::spec_debug_text(0x31u32) == "MetaHeaderFlags"@ + "("@ + "DISCONT"@ + " | "@ + "GAP"@ + " | "@ + "DELTA_UNIT"@ + ")"@,
            Self::spec_debug_text(0x32u32) == "MetaHeaderFlags"@ + "("@ + "CORRUPTED"@ + " | "@ + "GAP"@ + " | "@ + "DELTA_UNIT"@ + ")"@,
            Self::spec_debug_text(0x33u32) == "MetaHeaderFlags"@ + "("@ + "DISCONT"@ + " | "@ + "CORRUPTED"@ + " | "@ + "GAP"@ + " | "@ + "DELTA_UNIT"@ + ")"@,
            Self::spec_debug_text(0x34u32) == "MetaHeaderFlags"@ + "("@ + "MARKER"@ + " | "@ + "GAP"@ + " | "@ + "DELTA_UNIT"@ + ")"@,
            Self::spec_debug_text(0x35u32) == "MetaHeaderFlags"@ + "("@ + "DISCONT"@ + " | "@ + "MARKER"@ + " | "@ + "GAP"@ + " | "@ + "DELTA_UNIT"@ + ")"@,
            Self::spec_debug_text(0x36u32) == "MetaHeaderFlags"@ + "("@ + "CORRUPTED"@ + " | "@ + "MARKER"@ + " | "@ + "GAP"@ + " | "@ + "DELTA_UNIT"@ + ")"@,
            Self::spec_debug_text(0x37u32) == "MetaHeaderFlags"@ + "("@ + "DISCONT"@ + " | "@ + "CORRUPTED"@ + " | "@ + "MARKER"@ + " | "@ + "GAP"@ + " | "@ + "DELTA_UNIT"@ + ")"@,
            Self::spec_debug_text(0x38u32) == "MetaHeaderFlags"@ + "("@ + "HEADER"@ + " | "@ + "GAP"@ + " | "@ + "DELTA_UNIT"@ + ")"@,
            Self::spec_debug_text(0x39u32) == "MetaHeaderFlags"@ + "("@ + "DISCONT"@ + " | "@ + "HEADER"@ + " | "@ + "GAP"@ + " | "@ + "DELTA_UNIT"@ + ")"@,
            Self::spec_debug_text(0x3au32) == "MetaHeaderFlags"@ + "("@ + "CORRUPTED"@ + " | "@ + "HEADER"@ + " | "@ + "GAP"@ + " | "@ + "DELTA_UNIT"@ + ")"@,
            Self::spec_debug_text(0x3bu32) == "MetaHeaderFlags"@ + "("@ + "DISCONT"@ + " | "@ + "CORRUPTED"@ + " | "@ + "HEADER"@ + " | "@ + "GAP"@ + " | "@ + "DELTA_UNIT"@ + ")"@,
            Self::spec_debug_text(0x3cu32) == "MetaHeaderFlags"@ + "("@ + "MARKER"@ + " | "@ + "HEADER"@ + " | "@ + "GAP"@ + " | "@ + "DELTA_UNIT"@ + ")"@,
            Self::spec_debug_text(0x3du32) == "MetaHeaderFlags"@ + "("@ + "DISCONT"@ + " | "@ + "MARKER"@ + " | "@ + "HEADER"@ + " | "@ + "GAP"@ + " | "@ + "DELTA_UNIT"@ + ")"@,
            Self::spec_debug_text(0x3eu32) == "MetaHeaderFlags"@ + "("@ + "CORRUPTED"@ + " | "@ + "MARKER"@ + " | "@ + "HEADER"@ + " | "@ + "GAP"@ + " | "@ + "DELTA_UNIT"@ + ")"@,
            Self::spec_debug_text(0x3fu32) == "MetaHeaderFlags"@ + "("@ + "DISCONT"@ + " | "@ + "CORRUPTED"@ + " | "@ + "MARKER"@ + " | "@ + "HEADER"@ + " | "@ + "GAP"@ + " | "@ + "DELTA_UNIT"@ + ")"@,
            Self::spec_debug_text(0x41u32) == "MetaHeaderFlags"@ + "("@ + "DISCONT"@ + " | "@ + "0x"@ + ("4"@ + "0"@) + ")"@,
    {
        reveal_with_fuel(crate::flags::walk_text, 8);
        reveal_with_fuel(crate::flags::hex, 3);
        assert(0x10u32 & !0x10u32 == 0x0u32 && 0x10u32 & 0x10u32 == 0x10u32 && 0x10u32 & 0x1u32 == 0x0u32 && 0x10u32 & 0x2u32 == 0x0u32 && 0x10u32 & 0x4u32 == 0x0u32 && 0x10u32 & 0x8u32 == 0x0u32 && 0x11u32 & !0x1u32 == 0x10u32 && 0x11u32 & 0x10u32 == 0x10u32 && 0x11u32 & 0x1u32 == 0x1u32 && 0x11u32 & 0x2u32 == 0x0u32 && 0x11u32 & 0x4u32 == 0x0u32 && 0x11u32 & 0x8u32 == 0x0u32 && 0x12u32 & !0x2u32 == 0x10u32 && 0x12u32 & 0x10u32 == 0x10u32 && 0x12u32 & 0x1u32 == 0x0u32 && 0x12u32 & 0x2u32 == 0x2u32 && 0x12u32 & 0x4u32 == 0x0u32 && 0x12u32 & 0x8u32 == 0x0u32 && 0x13u32 & !0x1u32 == 0x12u32 && 0x13u32 & 0x10u32 == 0x10u32 && 0x13u32 & 0x1u32 == 0x1u32 && 0x13u32 & 0x2u32 == 0x2u32 && 0x13u32 & 0x4u32 == 0x0u32 && 0x13u32 & 0x8u32 == 0x0u32 && 0x14u32 & !0x4u32 == 0x10u32 && 0x14u32 & 0x10u32 == 0x10u32 && 0x14u32 & 0x1u32 == 0x0u32 && 0x14u32 & 0x2u32 == 0x0u32 && 0x14u32 & 0x4u32 == 0x4u32 && 0x14u32 & 0x8u32 == 0x0u32 && 0x15u32 & !0x1u32 == 0x14u32 && 0x15u32 & 0x10u32 == 0x10u32 && 0x15u32 & 0x1u32 == 0x1u32 && 0x15u32 & 0x2u32 == 0x0u32 && 0x15u32 & 0x4u32 == 0x4u32 && 0x15u32 & 0x8u32 == 0x0u32 && 0x16u32 & !0x2u32 == 0x14u32 && 0x16u32 & 0x10u32 == 0x10u32 && 0x16u32 & 0x1u32 == 0x0u32 && 0x16u32 & 0x2u32 == 0x2u32 && 0x16u32 & 0x4u32 == 0x4u32 && 0x16u32 & 0x8u32 == 0x0u32 && 0x17u32 & !0x1u32 == 0x16u32 && 0x17u32 & 0x10u32 == 0x10u32 && 0x17u32 & 0x1u32 == 0x1u32 && 0x17u32 & 0x2u32 == 0x2u32 && 0x17u32 & 0x4u32 == 0x4u32 && 0x17u32 & 0x8u32 == 0x0u32 && 0x18u32 & !0x8u32 == 0x10u32 && 0x18u32 & 0x10u32 == 0x10u32 && 0x18u32 & 0x1u32 == 0x0u32 && 0x18u32 & 0x2u32 == 0x0u32 && 0x18u32 & 0x4u32 == 0x0u32 && 0x18u32 & 0x8u32 == 0x8u32 && 0x19u32 & !0x1u32 == 0x18u32 && 0x19u32 & 0x10u32 == 0x10u32 && 0x19u32 & 0x1u32 == 0x1u32 && 0x19u32 & 0x2u32 == 0x0u32 && 0x19u32 & 0x4u32 == 0x0u32 && 0x19u32 & 0x8u32 == 0x8u32 && 0x1au32 & !0x2u32 == 0x18u32 && 0x1au32 & 0x10u32 == 0x10u32 && 0x1au32 & 0x1u32 == 0x0u32 && 0x1au32 & 0x2u32 == 0x2u32 && 0x1au32 & 0x4u32 == 0x0u32 && 0x1au32 & 0x8u32 == 0x8u32 && 0x1bu32 & !0x1u32 == 0x1au32 && 0x1bu32 & 0x10u32 == 0x10u32 && 0x1bu32 & 0x1u32 == 0x1u32 && 0x1bu32 & 0x2u32 == 0x2u32 && 0x1bu32 & 0x4u32 == 0x0u32 && 0x1bu32 & 0x8u32 == 0x8u32 && 0x1cu32 & !0x4u32 == 0x18u32 && 0x1cu32 & 0x10u32 == 0x10u32 && 0x1cu32 & 0x1u32 == 0x0u32 && 0x1cu32 & 0x2u32 == 0x0u32 && 0x1cu32 & 0x4u32 == 0x4u32 && 0x1cu32 & 0x8u32 == 0x8u32 && 0x1du32 & !0x1u32 == 0x1cu32 && 0x1du32 & 0x10u32 == 0x10u32 && 0x1du32 & 0x1u32 == 0x1u32 && 0x1du32 & 0x2u32 == 0x0u32 && 0x1du32 & 0x4u32 == 0x4u32 && 0x1du32 & 0x8u32 == 0x8u32 && 0x1eu32 & !0x2u32 == 0x1cu32 && 0x1eu32 & 0x10u32 == 0x10u32 && 0x1eu32 & 0x1u32 == 0x0u32 && 0x1eu32 & 0x2u32 == 0x2u32 && 0x1eu32 & 0x4u32 == 0x4u32 && 0x1eu32 & 0x8u32 == 0x8u32 && 0x1fu32 & !0x1u32 == 0x1eu32 && 0x1fu32 & 0x10u32 == 0x10u32 && 0x1fu32 & 0x1u32 == 0x1u32 && 0x1fu32 & 0x2u32 == 0x2u32 && 0x1fu32 & 0x4u32 == 0x4u32 && 0x1fu32 & 0x8u32 == 0x8u32 && 0x1u32 & !0x1u32 == 0x0u32 && 0x1u32 & 0x1u32 == 0x1u32 && 0x20u32 & !0x20u32 == 0x0u32 && 0x20u32 & 0x10u32 == 0x0u32 && 0x20u32 & 0x1u32 == 0x0u32 && 0x20u32 & 0x20u32 == 0x20u32 && 0x20u32 & 0x2u32 == 0x0u32 && 0x20u32 & 0x4u32 == 0x0u32 && 0x20u32 & 0x8u32 == 0x0u32 && 0x21u32 & !0x1u32 == 0x20u32 && 0x21u32 & 0x10u32 == 0x0u32 && 0x21u32 & 0x1u32 == 0x1u32 && 0x21u32 & 0x20u32 == 0x20u32 && 0x21u32 & 0x2u32 == 0x0u32 && 0x21u32 & 0x4u32 == 0x0u32 && 0x21u32 & 0x8u32 == 0x0u32 && 0x22u32 & !0x2u32 == 0x20u32 && 0x22u32 & 0x10u32 == 0x0u32 && 0x22u32 & 0x1u32 == 0x0u32 && 0x22u32 & 0x20u32 == 0x20u32 && 0x22u32 & 0x2u32 == 0x2u32 && 0x22u32 & 0x4u32 == 0x0u32 && 0x22u32 & 0x8u32 == 0x0u32 && 0x23u32 & !0x1u32 == 0x22u32 && 0x23u32 & 0x10u32 == 0x0u32 && 0x23u32 & 0x1u32 == 0x1u32 && 0x23u32 & 0x20u32 == 0x20u32 && 0x23u32 & 0x2u32 == 0x2u32 && 0x23u32 & 0x4u32 == 0x0u32 && 0x23u32 & 0x8u32 == 0x0u32 && 0x24u32 & !0x4u32 == 0x20u32 && 0x24u32 & 0x10u32 == 0x0u32 && 0x24u32 & 0x1u32 == 0x0u32 && 0x24u32 & 0x20u32 == 0x20u32 && 0x24u32 & 0x2u32 == 0x0u32 && 0x24u32 & 0x4u32 == 0x4u32 && 0x24u32 & 0x8u32 == 0x0u32 && 0x25u32 & !0x1u32 == 0x24u32 && 0x25u32 & 0x10u32 == 0x0u32 && 0x25u32 & 0x1u32 == 0x1u32 && 0x25u32 & 0x20u32 == 0x20u32 && 0x25u32 & 0x2u32 == 0x0u32 && 0x25u32 & 0x4u32 == 0x4u32 && 0x25u32 & 0x8u32 == 0x0u32 && 0x26u32 & !0x2u32 == 0x24u32 && 0x26u32 & 0x10u32 == 0x0u32 && 0x26u32 & 0x1u32 == 0x0u32 && 0x26u32 & 0x20u32 == 0x20u32 && 0x26u32 & 0x2u32 == 0x2u32 && 0x26u32 & 0x4u32 == 0x4u32 && 0x26u32 & 0x8u32 == 0x0u32 && 0x27u32 & !0x1u32 == 0x26u32 && 0x27u32 & 0x10u32 == 0x0u32 && 0x27u32 & 0x1u32 == 0x1u32 && 0x27u32 & 0x20u32 == 0x20u32 && 0x27u32 & 0x2u32 == 0x2u32 && 0x27u32 & 0x4u32 == 0x4u32 && 0x27u32 & 0x8u32 == 0x0u32 && 0x28u32 & !0x8u32 == 0x20u32 && 0x28u32 & 0x10u32 == 0x0u32 && 0x28u32 & 0x1u32 == 0x0u32 && 0x28u32 & 0x20u32 == 0x20u32 && 0x28u32 & 0x2u32 == 0x0u32 && 0x28u32 & 0x4u32 == 0x0u32 && 0x28u32 & 0x8u32 == 0x8u32 && 0x29u32 & !0x1u32 == 0x28u32 && 0x29u32 & 0x10u32 == 0x0u32 && 0x29u32 & 0x1u32 == 0x1u32 && 0x29u32 & 0x20u32 == 0x20u32 && 0x29u32 & 0x2u32 == 0x0u32 && 0x29u32 & 0x4u32 == 0x0u32 && 0x29u32 & 0x8u32 == 0x8u32 && 0x2au32 & !0x2u32 == 0x28u32 && 0x2au32 & 0x10u32 == 0x0u32 && 0x2au32 & 0x1u32 == 0x0u32 && 0x2au32 & 0x20u32 == 0x20u32 && 0x2au32 & 0x2u32 == 0x2u32 && 0x2au32 & 0x4u32 == 0x0u32 && 0x2au32 & 0x8u32 == 0x8u32 && 0x2bu32 & !0x1u32 == 0x2au32 && 0x2bu32 & 0x10u32 == 0x0u32 && 0x2bu32 & 0x1u32 == 0x1u32 && 0x2bu32 & 0x20u32 == 0x20u32 && 0x2bu32 & 0x2u32 == 0x2u32 && 0x2bu32 & 0x4u32 == 0x0u32 && 0x2bu32 & 0x8u32 == 0x8u32 && 0x2cu32 & !0x4u32 == 0x28u32 && 0x2cu32 & 0x10u32 == 0x0u32 && 0x2cu32 & 0x1u32 == 0x0u32 && 0x2cu32 & 0x20u32 == 0x20u32 && 0x2cu32 & 0x2u32 == 0x0u32 && 0x2cu32 & 0x4u32 == 0x4u32 && 0x2cu32 & 0x8u32 == 0x8u32 && 0x2du32 & !0x1u32 == 0x2cu32 && 0x2du32 & 0x10u32 == 0x0u32 && 0x2du32 & 0x1u32 == 0x1u32 && 0x2du32 & 0x20u32 == 0x20u32 && 0x2du32 & 0x2u32 == 0x0u32 && 0x2du32 & 0x4u32 == 0x4u32 && 0x2du32 & 0x8u32 == 0x8u32 && 0x2eu32 & !0x2u32 == 0x2cu32 && 0x2eu32 & 0x10u32 == 0x0u32 && 0x2eu32 & 0x1u32 == 0x0u32 && 0x2eu32 & 0x20u32 == 0x20u32 && 0x2eu32 & 0x2u32 == 0x2u32 && 0x2eu32 & 0x4u32 == 0x4u32 && 0x2eu32 & 0x8u32 == 0x8u32 && 0x2fu32 & !0x1u32 == 0x2eu32 && 0x2fu32 & 0x10u32 == 0x0u32 && 0x2fu32 & 0x1u32 == 0x1u32 && 0x2fu32 & 0x20u32 == 0x20u32 && 0x2fu32 & 0x2u32 == 0x2u32 && 0x2fu32 & 0x4u32 == 0x4u32 && 0x2fu32 & 0x8u32 == 0x8u32 && 0x2u32 & !0x2u32 == 0x0u32 && 0x2u32 & 0x1u32 == 0x0u32 && 0x2u32 & 0x2u32 == 0x2u32 && 0x30u32 & !0x10u32 == 0x20u32 && 0x30u32 & 0x10u32 == 0x10u32 && 0x30u32 & 0x1u32 == 0x0u32 && 0x30u32 & 0x20u32 == 0x20u32 && 0x30u32 & 0x2u32 == 0x0u32 && 0x30u32 & 0x4u32 == 0x0u32 && 0x30u32 & 0x8u32 == 0x0u32 && 0x31u32 & !0x1u32 == 0x30u32 && 0x31u32 & 0x10u32 == 0x10u32 && 0x31u32 & 0x1u32 == 0x1u32 && 0x31u32 & 0x20u32 == 0x20u32 && 0x31u32 & 0x2u32 == 0x0u32 && 0x31u32 & 0x4u32 == 0x0u32 && 0x31u32 & 0x8u32 == 0x0u32 && 0x32u32 & !0x2u32 == 0x30u32 && 0x32u32 & 0x10u32 == 0x10u32 && 0x32u32 & 0x1u32 == 0x0u32 && 0x32u32 & 0x20u32 == 0x20u32 && 0x32u32 & 0x2u32 == 0x2u32 && 0x32u32 & 0x4u32 == 0x0u32 && 0x32u32 & 0x8u32 == 0x0u32 && 0x33u32 & !0x1u32 == 0x32u32 && 0x33u32 & 0x10u32 == 0x10u32 && 0x33u32 & 0x1u32 == 0x1u32 && 0x33u32 & 0x20u32 == 0x20u32 && 0x33u32 & 0x2u32 == 0x2u32 && 0x33u32 & 0x4u32 == 0x0u32 && 0x33u32 & 0x8u32 == 0x0u32 && 0x34u32 & !0x4u32 == 0x30u32 && 0x34u32 & 0x10u32 == 0x10u32 && 0x34u32 & 0x1u32 == 0x0u32 && 0x34u32 & 0x20u32 == 0x20u32 && 0x34u32 & 0x2u32 == 0x0u32 && 0x34u32 & 0x4u32 == 0x4u32 && 0x34u32 & 0x8u32 == 0x0u32 && 0x35u32 & !0x1u32 == 0x34u32 && 0x35u32 & 0x10u32 == 0x10u32 && 0x35u32 & 0x1u32 == 0x1u32 && 0x35u32 & 0x20u32 == 0x20u32 && 0x35u32 & 0x2u32 == 0x0u32 && 0x35u32 & 0x4u32 == 0x4u32 && 0x35u32 & 0x8u32 == 0x0u32 && 0x36u32 & !0x2u32 == 0x34u32 && 0x36u32 & 0x10u32 == 0x10u32 && 0x36u32 & 0x1u32 == 0x0u32 && 0x36u32 & 0x20u32 == 0x20u32 && 0x36u32 & 0x2u32 == 0x2u32 && 0x36u32 & 0x4u32 == 0x4u32 && 0x36u32 & 0x8u32 == 0x0u32 && 0x37u32 & !0x1u32 == 0x36u32 && 0x37u32 & 0x10u32 == 0x10u32 && 0x37u32 & 0x1u32 == 0x1u32 && 0x37u32 & 0x20u32 == 0x20u32 && 0x37u32 & 0x2u32 == 0x2u32 && 0x37u32 & 0x4u32 == 0x4u32 && 0x37u32 & 0x8u32 == 0x0u32 && 0x38u32 & !0x8u32 == 0x30u32 && 0x38u32 & 0x10u32 == 0x10u32 && 0x38u32 & 0x1u32 == 0x0u32 && 0x38u32 & 0x20u32 == 0x20u32 && 0x38u32 & 0x2u32 == 0x0u32 && 0x38u32 & 0x4u32 == 0x0u32 && 0x38u32 & 0x8u32 == 0x8u32 && 0x39u32 & !0x1u32 == 0x38u32 && 0x39u32 & 0x10u32 == 0x10u32 && 0x39u32 & 0x1u32 == 0x1u32 && 0x39u32 & 0x20u32 == 0x20u32 && 0x39u32 & 0x2u32 == 0x0u32 && 0x39u32 & 0x4u32 == 0x0u32 && 0x39u32 & 0x8u32 == 0x8u32 && 0x3au32 & !0x2u32 == 0x38u32 && 0x3au32 & 0x10u32 == 0x10u32 && 0x3au32 & 0x1u32 == 0x0u32 && 0x3au32 & 0x20u32 == 0x20u32 && 0x3au32 & 0x2u32 == 0x2u32 && 0x3au32 & 0x4u32 == 0x0u32 && 0x3au32 & 0x8u32 == 0x8u32 && 0x3bu32 & !0x1u32 == 0x3au32 && 0x3bu32 & 0x10u32 == 0x10u32 && 0x3bu32 & 0x1u32 == 0x1u32 && 0x3bu32 & 0x20u32 == 0x20u32 && 0x3bu32 & 0x2u32 == 0x2u32 && 0x3bu32 & 0x4u32 == 0x0u32 && 0x3bu32 & 0x8u32 == 0x8u32 && 0x3cu32 & !0x4u32 == 0x38u32 && 0x3cu32 & 0x10u32 == 0x10u32 && 0x3cu32 & 0x1u32 == 0x0u32 && 0x3cu32 & 0x20u32 == 0x20u32 && 0x3cu32 & 0x2u32 == 0x0u32 && 0x3cu32 & 0x4u32 == 0x4u32 && 0x3cu32 & 0x8u32 == 0x8u32 && 0x3du32 & !0x1u32 == 0x3cu32 && 0x3du32 & 0x10u32 == 0x10u32 && 0x3du32 & 0x1u32 == 0x1u32 && 0x3du32 & 0x20u32 == 0x20u32 && 0x3du32 & 0x2u32 == 0x0u32 && 0x3du32 & 0x4u32 == 0x4u32 && 0x3du32 & 0x8u32 == 0x8u32 && 0x3eu32 & !0x2u32 == 0x3cu32 && 0x3eu32 & 0x10u32 == 0x10u32 && 0x3eu32 & 0x1u32 == 0x0u32 && 0x3eu32 & 0x20u32 == 0x20u32 && 0x3eu32 & 0x2u32 == 0x2u32 && 0x3eu32 & 0x4u32 == 0x4u32 && 0x3eu32 & 0x8u32 == 0x8u32 && 0x3fu32 & !0x1u32 == 0x3eu32 && 0x3fu32 & 0x10u32 == 0x10u32 && 0x3fu32 & 0x1u32 == 0x1u32 && 0x3fu32 & 0x20u32 == 0x20u32 && 0x3fu32 & 0x2u32 == 0x2u32 && 0x3fu32 & 0x4u32 == 0x4u32 && 0x3fu32 & 0x8u32 == 0x8u32 && 0x3u32 & !0x1u32 == 0x2u32 && 0x3u32 & 0x1u32 == 0x1u32 && 0x3u32 & 0x2u32 == 0x2u32 && 0x41u32 & !0x1u32 == 0x40u32 && 0x41u32 & 0x10u32 == 0x0u32 && 0x41u32 & 0x1u32 == 0x1u32 && 0x41u32 & 0x20u32 == 0x0u32 && 0x41u32 & 0x2u32 == 0x0u32 && 0x41u32 & 0x4u32 == 0x0u32 && 0x41u32 & 0x8u32 == 0x0u32 && 0x4u32 & !0x4u32 == 0x0u32 && 0x4u32 & 0x1u32 == 0x0u32 && 0x4u32 & 0x2u32 == 0x0u32 && 0x4u32 & 0x4u32 == 0x4u32 && 0x5u32 & !0x1u32 == 0x4u32 && 0x5u32 & 0x1u32 == 0x1u32 && 0x5u32 & 0x2u32 == 0x0u32 && 0x5u32 & 0x4u32 == 0x4u32 && 0x6u32 & !0x2u32 == 0x4u32 && 0x6u32 & 0x1u32 == 0x0u32 && 0x6u32 & 0x2u32 == 0x2u32 && 0x6u32 & 0x4u32 == 0x4u32 && 0x7u32 & !0x1u32 == 0x6u32 && 0x7u32 & 0x1u32 == 0x1u32 && 0x7u32 & 0x2u32 == 0x2u32 && 0x7u32 & 0x4u32 == 0x4u32 && 0x8u32 & !0x8u32 == 0x0u32 && 0x8u32 & 0x1u32 == 0x0u32 && 0x8u32 & 0x2u32 == 0x0u32 && 0x8u32 & 0x4u32 == 0x0u32 && 0x8u32 & 0x8u32 == 0x8u32 && 0x9u32 & !0x1u32 == 0x8u32 && 0x9u32 & 0x1u32 == 0x1u32 && 0x9u32 & 0x2u32 == 0x0u32 && 0x9u32 & 0x4u32 == 0x0u32 && 0x9u32 & 0x8u32 == 0x8u32 && 0xau32 & !0x2u32 == 0x8u32 && 0xau32 & 0x1u32 == 0x0u32 && 0xau32 & 0x2u32 == 0x2u32 && 0xau32 & 0x4u32 == 0x0u32 && 0xau32 & 0x8u32 == 0x8u32 && 0xbu32 & !0x1u32 == 0xau32 && 0xbu32 & 0x1u32 == 0x1u32 && 0xbu32 & 0x2u32 == 0x2u32 && 0xbu32 & 0x4u32 == 0x0u32 && 0xbu32 & 0x8u32 == 0x8u32 && 0xcu32 & !0x4u32 == 0x8u32 && 0xcu32 & 0x1u32 == 0x0u32 && 0xcu32 & 0x2u32 == 0x0u32 && 0xcu32 & 0x4u32 == 0x4u32 && 0xcu32 & 0x8u32 == 0x8u32 && 0xdu32 & !0x1u32 == 0xcu32 && 0xdu32 & 0x1u32 == 0x1u32 && 0xdu32 & 0x2u32 == 0x0u32 && 0xdu32 & 0x4u32 == 0x4u32 && 0xdu32 & 0x8u32 == 0x8u32 && 0xeu32 & !0x2u32 == 0xcu32 && 0xeu32 & 0x1u32 == 0x0u32 && 0xeu32 & 0x2u32 == 0x2u32 && 0xeu32 & 0x4u32 == 0x4u32 && 0xeu32 & 0x8u32 == 0x8u32 && 0xfu32 & !0x1u32 == 0xeu32 && 0xfu32 & 0x1u32 == 0x1u32 && 0xfu32 & 0x2u32 == 0x2u32 && 0xfu32 & 0x4u32 == 0x4u32 && 0xfu32 & 0x8u32 == 0x8u32) by (bit_vector);
    }

    /// No flag set.
    pub fn empty() -> (r: Self)
        ensures
            r@ == 0,
    {
        Self(0)
    }

    /// Every defined flag set.
    pub fn all() -> (r: Self)
        ensures
            r@ == Self::spec_all_bits(),
    {
        Self(0x3f)
    }

    pub fn bits(&self) -> (r: u32)
        ensures
            r == self@,
    {
        self.0
    }

    /// The flags of `bits`, undefined bits kept.
    pub fn from_bits_retain(bits: u32) -> (r: Self)
        ensures
            r@ == bits,
            r == Self::spec_from_bits_retain(bits),
    {
        Self(bits)
    }

    /// The flags of `bits`, undefined bits dropped.
    pub fn from_bits_truncate(bits: u32) -> (r: Self)
        ensures
            r@ == bits & Self::spec_all_bits(),
            r == Self::spec_from_bits_truncate(bits),
    {
        Self(bits & 0x3f)
    }

    /// The flags of `bits` when every set bit is a defined flag, else `None`.
    pub fn from_bits(bits: u32) -> (r: Option<Self>)
        ensures
            r is Some <==> bits & Self::spec_all_bits() == bits,
            r matches Some(f) ==> f@ == bits,
            r == Self::spec_from_bits(bits),
    {
        if bits & 0x3f == bits {
            Some(Self(bits))
        } else {
            None
        }
    }

    pub fn is_empty(&self) -> (r: bool)
        ensures
            r == (self@ == 0),
    {
        self.0 == 0
    }

    /// Whether every flag of `other` is set in `self`.
    pub fn contains(&self, other: Self) -> (r: bool)
        ensures
            r == self.spec_contains(other),
    {
        self.0 & other.0 == other.0
    }

    /// Whether some flag of `other` is set in `self`.
    pub fn intersects(&self, other: Self) -> (r: bool)
        ensures
            r == self.spec_intersects(other),
    {
        self.0 & other.0 != 0
    }

    /// Sets the flags of `other`.
    pub fn insert(&mut self, other: Self)
        ensures
            final(self)@ == old(self)@ | other@,
            *final(self) == old(self).spec_union(other),
    {
        self.0 = self.0 | other.0;
    }

    /// Clears the flags of `other`.
    pub fn remove(&mut self, other: Self)
        ensures
            final(self)@ == old(self)@ & !other@,
            *final(self) == old(self).spec_difference(other),
    {
        self.0 = self.0 & !other.0;
    }

    /// The flags set in `self` or in `other`.
    pub fn union(self, other: Self) -> (r: Self)
        ensures
            r@ == self@ | other@,
            r == self.spec_union(other),
    {
        Self(self.0 | other.0)
    }

    /// Whether every defined flag is set.
    pub fn is_all(&self) -> (r: bool)
        ensures
            r == (Self::spec_all_bits() | self@ == self@),
    {
        0x3f | self.0 == self.0
    }

    /// Flips the flags of `other`.
    pub fn toggle(&mut self, other: Self)
        ensures
            final(self)@ == old(self)@ ^ other@,
            *final(self) == old(self).spec_symmetric_difference(other),
    {
        self.0 = self.0 ^ other.0;
    }

    /// Sets the flags of `other` when `value` holds, clears them otherwise.
    pub fn set(&mut self, other: Self, value: bool)
        ensures
            value ==> *final(self) == old(self).spec_union(other),
            !value ==> *final(self) == old(self).spec_difference(other),
            final(self)@ == if value { old(self)@ | other@ } else { old(self)@ & !other@ },
    {
        if value {
            self.insert(other);
        } else {
            self.remove(other);
        }
    }

    /// The flags set in both `self` and `other`.
    pub fn intersection(self, other: Self) -> (r: Self)
        ensures
            r@ == self@ & other@,
            r == self.spec_intersection(other),
    {
        Self(self.0 & other.0)
    }

    /// The flags set in `self` and not in `other`.
    pub fn difference(self, other: Self) -> (r: Self)
        ensures
            r@ == self@ & !other@,
            r == self.spec_difference(other),
    {
        Self(self.0 & !other.0)
    }

    /// The flags set in exactly one of `self` and `other`.
    pub fn symmetric_difference(self, other: Self) -> (r: Self)
        ensures
            r@ == self@ ^ other@,
            r == self.spec_symmetric_difference(other),
    {
        Self(self.0 ^ other.0)
    }

    /// The defined flags not set in `self`.
    pub fn complement(self) -> (r: Self)
        ensures
            r@ == !self@ & Self::spec_all_bits(),
            r == self.spec_complement(),
    {
        Self::from_bits_truncate(!self.0)
    }

    /// The text of the value; see `spec_debug_text`.
    pub fn debug_text(&self) -> (r: String)
        ensures
            r@ == Self::spec_debug_text(self@),
    {
        let names: [&'static str; 6] = ["DISCONT", "CORRUPTED", "MARKER", "HEADER", "GAP", "DELTA_UNIT"];
        let values: [u32; 6] = [0x1, 0x2, 0x4, 0x8, 0x10, 0x20];
        assert(names@.map_values(|n: &'static str| n@) =~= seq!["DISCONT"@, "CORRUPTED"@, "MARKER"@, "HEADER"@, "GAP"@, "DELTA_UNIT"@]);
        assert(values@ =~= seq![0x1u32, 0x2u32, 0x4u32, 0x8u32, 0x10u32, 0x20u32]);
        crate::flags::flag_text_of("MetaHeaderFlags", names.as_slice(), values.as_slice(), self.0)
    }
}

impl core::ops::BitOr for MetaHeaderFlags {
    type Output = Self;

    /// `union`.
    fn bitor(self, other: Self) -> (r: Self)
        ensures
            r == self.spec_union(other),
    {
        self.union(other)
    }
}

impl vstd::std_specs::ops::BitOrSpecImpl for MetaHeaderFlags {
    open spec fn obeys_bitor_spec() -> bool {
        true
    }

    open spec fn bitor_req(self, other: Self) -> bool {
        true
    }

    open spec fn bitor_spec(self, other: Self) -> Self {
        self.spec_union(other)
    }
}

impl core::ops::BitAnd for MetaHeaderFlags {
    type Output = Self;

    /// `intersection`.
    fn bitand(self, other: Self) -> (r: Self)
        ensures
            r == self.spec_intersection(other),
    {
        self.intersection(other)
    }
}

impl vstd::std_specs::ops::BitAndSpecImpl for MetaHeaderFlags {
    open spec fn obeys_bitand_spec() -> bool {
        true
    }

    open spec fn bitand_req(self, other: Self) -> bool {
        true
    }

    open spec fn bitand_spec(self, other: Self) -> Self {
        self.spec_intersection(other)
    }
}

impl core::ops::BitXor for MetaHeaderFlags {
    type Output = Self;

    /// `symmetric_difference`.
    fn bitxor(self, other: Self) -> (r: Self)
        ensures
            r == self.spec_symmetric_difference(other),
    {
        self.symmetric_difference(other)
    }
}

impl vstd::std_specs::ops::BitXorSpecImpl for MetaHeaderFlags {
    open spec fn obeys_bitxor_spec() -> bool {
        true
    }

    open spec fn bitxor_req(self, other: Self) -> bool {
        true
    }

    open spec fn bitxor_spec(self, other: Self) -> Self {
        self.spec_symmetric_difference(other)
    }
}

impl core::ops::Sub for MetaHeaderFlags {
    type Output = Self;

    /// `difference`.
    fn sub(self, other: Self) -> (r: Self)
        ensures
            r == self.spec_difference(other),
    {
        self.difference(other)
    }
}

impl vstd::std_specs::ops::SubSpecImpl for MetaHeaderFlags {
    open spec fn obeys_sub_spec() -> bool {
        true
    }

    open spec fn sub_req(self, other: Self) -> bool {
        true
    }

    open spec fn sub_spec(self, other: Self) -> Self {
        self.spec_difference(other)
    }
}

impl core::ops::Not for MetaHeaderFlags {
    type Output = Self;

    /// `complement`.
    fn not(self) -> (r: Self)
        ensures
            r == self.spec_complement(),
    {
        self.complement()
    }
}

impl vstd::std_specs::ops::NotSpecImpl for MetaHeaderFlags {
    open spec fn obeys_not_spec() -> bool {
        true
    }

    open spec fn not_req(self) -> bool {
        true
    }

    open spec fn not_spec(self) -> Self {
        self.spec_complement()
    }
}

/// Header metadata of a buffer.
#[derive(PartialEq, Eq, Structural, Debug)]
pub struct MetaHeader(spa_meta_header);

impl View for MetaHeader {
    type V = spa_meta_header;

    closed spec fn view(&self) -> spa_meta_header {
        self.0
    }
}

impl MetaHeader {
    /// Two values are equal exactly when their views are.
    pub proof fn lemma_eq_iff_view_eq(a: Self, b: Self)
        ensures
            (a == b) <==> (a@ == b@),
    {
    }
}

impl MetaHeader {
    /// The view of a raw structure.
    pub fn from_raw(raw: spa_meta_header) -> (r: Self)
        ensures
            r@ == raw,
    {
        Self(raw)
    }

    pub fn as_raw(&self) -> (r: &spa_meta_header)
        ensures
            *r == self@,
    {
        &self.0
    }

    pub fn offset(&self) -> (r: u32)
        ensures
            r == self@.offset,
    {
        self.0.offset
    }

    pub fn pts(&self) -> (r: i64)
        ensures
            r == self@.pts,
    {
        self.0.pts
    }

    pub fn dts_offset(&self) -> (r: i64)
        ensures
            r == self@.dts_offset,
    {
        self.0.dts_offset
    }

    pub fn seq(&self) -> (r: u64)
        ensures
            r == self@.seq,
    {
        self.0.seq
    }

    /// The header flags, undefined bits kept.
    pub fn flags(&self) -> (r: MetaHeaderFlags)
        ensures
            r@ == self@.flags,
    {
        MetaHeaderFlags::from_bits_retain(self.0.flags)
    }
}

impl Metadata for MetaHeader {
    const META_TYPE: u32 = SPA_META_Header;
}

/// Crop metadata: the part of the frame to show.
#[derive(PartialEq, Eq, Structural, Debug)]
pub struct VideoCrop(spa_meta_region);

impl View for VideoCrop {
    type V = spa_meta_region;

    closed spec fn view(&self) -> spa_meta_region {
        self.0
    }
}

impl VideoCrop {
    /// Two values are equal exactly when their views are.
    pub proof fn lemma_eq_iff_view_eq(a: Self, b: Self)
        ensures
            (a == b) <==> (a@ == b@),
    {
    }
}

impl VideoCrop {
    /// The view of a raw structure.
    pub fn from_raw(raw: spa_meta_region) -> (r: Self)
        ensures
            r@ == raw,
    {
        Self(raw)
    }

    pub fn as_raw(&self) -> (r: &spa_meta_region)
        ensures
            *r == self@,
    {
        &self.0
    }

    /// Returns the coordinates of the region as (x, y)
    pub fn position(&self) -> (r: (i32, i32))
        ensures
            r == (self@.region.position.x, self@.region.position.y),
    {
        (self.0.region.position.x, self.0.region.position.y)
    }

    /// Returns the size of the region as (width, height)
    pub fn size(&self) -> (r: (u32, u32))
        ensures
            r == (self@.region.size.width, self@.region.size.height),
    {
        (self.0.region.size.width, self.0.region.size.height)
    }
}

impl Metadata for VideoCrop {
    const META_TYPE: u32 = SPA_META_VideoCrop;
}

/// Damage metadata: a damaged region of the frame.
#[derive(PartialEq, Eq, Structural, Debug)]
pub struct VideoDamage(spa_meta_region);

impl View for VideoDamage {
    type V = spa_meta_region;

    closed spec fn view(&self) -> spa_meta_region {
        self.0
    }
}

impl VideoDamage {
    /// Two values are equal exactly when their views are.
    pub proof fn lemma_eq_iff_view_eq(a: Self, b: Self)
        ensures
            (a == b) <==> (a@ == b@),
    {
    }
}

impl VideoDamage {
    /// The view of a raw structure.
    pub fn from_raw(raw: spa_meta_region) -> (r: Self)
        ensures
            r@ == raw,
    {
        Self(raw)
    }

    pub fn as_raw(&self) -> (r: &spa_meta_region)
        ensures
            *r == self@,
    {
        &self.0
    }

    /// Returns the coordinates of the region as (x, y)
    pub fn position(&self) -> (r: (i32, i32))
        ensures
            r == (self@.region.position.x, self@.region.position.y),
    {
        (self.0.region.position.x, self.0.region.position.y)
    }

    /// Returns the size of the region as (width, height)
    pub fn size(&self) -> (r: (u32, u32))
        ensures
            r == (self@.region.size.width, self@.region.size.height),
    {
        (self.0.region.size.width, self.0.region.size.height)
    }
}

impl Metadata for VideoDamage {
    const META_TYPE: u32 = SPA_META_VideoDamage;
}

/// Bitmap metadata, such as a cursor image.
#[derive(PartialEq, Eq, Structural, Debug)]
pub struct MetaBitmap(spa_meta_bitmap);

impl View for MetaBitmap {
    type V = spa_meta_bitmap;

    closed spec fn view(&self) -> spa_meta_bitmap {
        self.0
    }
}

impl MetaBitmap {
    /// Two values are equal exactly when their views are.
    pub proof fn lemma_eq_iff_view_eq(a: Self, b: Self)
        ensures
            (a == b) <==> (a@ == b@),
    {
    }
}

impl MetaBitmap {
    /// The view of a raw structure.
    pub fn from_raw(raw: spa_meta_bitmap) -> (r: Self)
        ensures
            r@ == raw,
    {
        Self(raw)
    }

    pub fn as_raw(&self) -> (r: &spa_meta_bitmap)
        ensures
            *r == self@,
    {
        &self.0
    }

    pub fn format(&self) -> (r: u32)
        ensures
            r == self@.format,
    {
        self.0.format
    }

    /// Returns the size of the bitmap as (width, height)
    pub fn size(&self) -> (r: (u32, u32))
        ensures
            r == (self@.size.width, self@.size.height),
    {
        (self.0.size.width, self.0.size.height)
    }

    pub fn stride(&self) -> (r: i32)
        ensures
            r == self@.stride,
    {
        self.0.stride
    }

    pub fn offset(&self) -> (r: u32)
        ensures
            r == self@.offset,
    {
        self.0.offset
    }
}

impl Metadata for MetaBitmap {
    const META_TYPE: u32 = SPA_META_Bitmap;
}

/// Cursor metadata.
#[derive(PartialEq, Eq, Structural, Debug)]
pub struct MetaCursor(spa_meta_cursor);

impl View for MetaCursor {
    type V = spa_meta_cursor;

    closed spec fn view(&self) -> spa_meta_cursor {
        self.0
    }
}

impl MetaCursor {
    /// Two values are equal exactly when their views are.
    pub proof fn lemma_eq_iff_view_eq(a: Self, b: Self)
        ensures
            (a == b) <==> (a@ == b@),
    {
    }
}

impl MetaCursor {
    /// The view of a raw structure.
    pub fn from_raw(raw: spa_meta_cursor) -> (r: Self)
        ensures
            r@ == raw,
    {
        Self(raw)
    }

    pub fn as_raw(&self) -> (r: &spa_meta_cursor)
        ensures
            *r == self@,
    {
        &self.0
    }

    pub fn id(&self) -> (r: u32)
        ensures
            r == self@.id,
    {
        self.0.id
    }

    pub fn flags(&self) -> (r: u32)
        ensures
            r == self@.flags,
    {
        self.0.flags
    }

    /// Returns the position, on screen, of the cursor as (x, y)
    pub fn position(&self) -> (r: (i32, i32))
        ensures
            r == (self@.position.x, self@.position.y),
    {
        (self.0.position.x, self.0.position.y)
    }

    /// offsets for hotspot in bitmap as (x, y).
    /// This field has no meaning  when there is no valid bitmap.
    pub fn hotspot(&self) -> (r: (i32, i32))
        ensures
            r == (self@.hotspot.x, self@.hotspot.y),
    {
        (self.0.hotspot.x, self.0.hotspot.y)
    }

    pub fn bitmap_offset(&self) -> (r: u32)
        ensures
            r == self@.bitmap_offset,
    {
        self.0.bitmap_offset
    }
}

impl Metadata for MetaCursor {
    const META_TYPE: u32 = SPA_META_Cursor;
}

/// Control metadata: a sequence of timed controls.
#[derive(PartialEq, Eq, Structural, Debug)]
pub struct MetaControl(spa_meta_control);

impl View for MetaControl {
    type V = spa_meta_control;

    closed spec fn view(&self) -> spa_meta_control {
        self.0
    }
}

impl MetaControl {
    /// Two values are equal exactly when their views are.
    pub proof fn lemma_eq_iff_view_eq(a: Self, b: Self)
        ensures
            (a == b) <==> (a@ == b@),
    {
    }
}

impl MetaControl {
    /// The view of a raw structure.
    pub fn from_raw(raw: spa_meta_control) -> (r: Self)
        ensures
            r@ == raw,
    {
        Self(raw)
    }

    pub fn as_raw(&self) -> (r: &spa_meta_control)
        ensures
            *r == self@,
    {
        &self.0
    }

    pub fn sequence(&self) -> (r: &spa_pod_sequence)
        ensures
            *r == self@.sequence,
    {
        &self.0.sequence
    }
}

impl Metadata for MetaControl {
    const META_TYPE: u32 = SPA_META_Control;
}

/// Busy metadata: the busy flags of the buffer.
#[derive(PartialEq, Eq, Structural, Debug)]
pub struct MetaBusy(u32);

impl View for MetaBusy {
    type V = u32;

    closed spec fn view(&self) -> u32 {
        self.0
    }
}

impl MetaBusy {
    /// Two values are equal exactly when their views are.
    pub proof fn lemma_eq_iff_view_eq(a: Self, b: Self)
        ensures
            (a == b) <==> (a@ == b@),
    {
    }
}

impl MetaBusy {
    /// The view of the raw busy flags.
    pub fn from_raw(raw: u32) -> (r: Self)
        ensures
            r@ == raw,
    {
        Self(raw)
    }

    pub fn as_raw(&self) -> (r: &u32)
        ensures
            *r == self@,
    {
        &self.0
    }

    /// Whether the buffer is in use: some busy flag is set.
    pub fn is_busy(&self) -> (r: bool)
        ensures
            r == (self@ != 0),
    {
        self.0 != 0
    }
}

impl Metadata for MetaBusy {
    const META_TYPE: u32 = SPA_META_Busy;
}

/// A transformation of a video frame, as flags. Its text form is `debug_text`.
#[derive(Clone, Copy, PartialEq, Eq, Structural)]
pub struct VideoTransform(u32);

impl View for VideoTransform {
    type V = u32;

    closed spec fn view(&self) -> u32 {
        self.0
    }
}

impl VideoTransform {
    /// The bits of the flags that are defined.
    pub open spec fn spec_all_bits() -> u32 {
        0x7
    }

    #[allow(non_snake_case)]
    pub fn IDENTITY() -> (r: Self)
        ensures
            r@ == 0x0,
    {
        Self(0x0)
    }

    #[allow(non_snake_case)]
    pub fn ROT_90() -> (r: Self)
        ensures
            r@ == 0x1,
    {
        Self(0x1)
    }

    #[allow(non_snake_case)]
    pub fn ROT_180() -> (r: Self)
        ensures
            r@ == 0x2,
    {
        Self(0x2)
    }

    #[allow(non_snake_case)]
    pub fn ROT_270() -> (r: Self)
        ensures
            r@ == 0x3,
    {
        Self(0x3)
    }

    #[allow(non_snake_case)]
    pub fn FLIP_X() -> (r: Self)
        ensures
            r@ == 0x4,
    {
        Self(0x4)
    }

    #[allow(non_snake_case)]
    pub fn FLIP_Y() -> (r: Self)
        ensures
            r@ == 0x5,
    {
        Self(0x5)
    }

    #[allow(non_snake_case)]
    pub fn FLIP_XY() -> (r: Self)
        ensures
            r@ == 0x6,
    {
        Self(0x6)
    }

    /// The flags with the given bits, undefined bits kept.
    pub closed spec fn spec_from_bits_retain(bits: u32) -> Self {
        Self(bits)
    }

    /// The flags with the given bits, undefined bits dropped.
    pub closed spec fn spec_from_bits_truncate(bits: u32) -> Self {
        Self(bits & 0x7)
    }

    /// The flags with the given bits when every set bit is a defined flag.
    pub closed spec fn spec_from_bits(bits: u32) -> Option<Self> {
        if bits & 0x7 == bits {
            Some(Self(bits))
        } else {
            None
        }
    }

    /// Whether every flag of `other` is set in `self`.
    pub open spec fn spec_contains(self, other: Self) -> bool {
        self@ & other@ == other@
    }

    /// Whether some flag of `other` is set in `self`.
    pub open spec fn spec_intersects(self, other: Self) -> bool {
        self@ & other@ != 0
    }

    /// The flags set in `self` or in `other`.
    pub closed spec fn spec_union(self, other: Self) -> Self {
        Self(self.0 | other.0)
    }

    /// The flags set in `self` and not in `other`.
    pub closed spec fn spec_difference(self, other: Self) -> Self {
        Self(self.0 & !other.0)
    }

    /// The flags set in both `self` and `other`.
    pub closed spec fn spec_intersection(self, other: Self) -> Self {
        Self(self.0 & other.0)
    }

    /// The flags set in exactly one of `self` and `other`.
    pub closed spec fn spec_symmetric_difference(self, other: Self) -> Self {
        Self(self.0 ^ other.0)
    }

    /// The defined flags not set in `self`.
    pub closed spec fn spec_complement(self) -> Self {
        Self(!self.0 & 0x7)
    }

    /// The bits of each flag value built by the operations above.
    pub proof fn lemma_spec_bits(bits: u32, flags: Self, other: Self)
        ensures
            Self::spec_from_bits_retain(bits)@ == bits,
            Self::spec_from_bits_truncate(bits)@ == bits & Self::spec_all_bits(),
            Self::spec_from_bits(bits) matches Some(f) ==> f@ == bits,
            flags.spec_union(other)@ == flags@ | other@,
            flags.spec_difference(other)@ == flags@ & !other@,
            flags.spec_intersection(other)@ == flags@ & other@,
            flags.spec_symmetric_difference(other)@ == flags@ ^ other@,
            flags.spec_complement()@ == !flags@ & Self::spec_all_bits(),
    {
    }

    /// The text of a flag value: the type's name and, in brackets, the
    /// names of the set flags joined by ` | `, then any bits no name covers
    /// in hex; `0x0` in brackets when no bit is set.
    pub open spec fn spec_debug_text(bits: u32) -> Seq<char> {
        crate::flags::flag_text("VideoTransform"@, seq!["IDENTITY"@, "ROT_90"@, "ROT_180"@, "ROT_270"@, "FLIP_X"@, "FLIP_Y"@, "FLIP_XY"@], seq![0x0u32, 0x1u32, 0x2u32, 0x3u32, 0x4u32, 0x5u32, 0x6u32], bits)
    }

    /// Two flag values are equal exactly when their bits are.
    pub proof fn lemma_eq_iff_bits_eq(a: Self, b: Self)
        ensures
            (a == b) <==> (a@ == b@),
    {
    }

    /// The laws of the flag operations:
    /// - truncating keeps only defined bits, so `from_bits` accepts the
    ///   truncated bits unchanged and truncating them again changes nothing;
    /// - after `insert(other)` the flags contain `other` and whatever they
    ///   contained before;
    /// - after `remove(other)` the flags share no flag with `other`;
    /// - `contains(other)` holds exactly when `union(other)` changes nothing.
    pub proof fn lemma_flag_laws(bits: u32, flags: Self, other: Self)
        ensures
            Self::spec_from_bits(Self::spec_from_bits_truncate(bits)@)
                == Some(Self::spec_from_bits_truncate(bits)),
            Self::spec_from_bits_truncate(Self::spec_from_bits_truncate(bits)@)
                == Self::spec_from_bits_truncate(bits),
            flags.spec_union(other).spec_contains(other),
            flags.spec_union(other).spec_contains(flags),
            !flags.spec_difference(other).spec_intersects(other),
            flags.spec_contains(other) <==> flags.spec_union(other) == flags,
    {
        crate::flags::lemma_truncate_is_representable(bits, 0x7);
        crate::flags::lemma_insert_contains(flags@, other@);
        crate::flags::lemma_remove_disjoint(flags@, other@);
        crate::flags::lemma_contains_iff_union_unchanged(flags@, other@);
    }

    /// The text of every value whose bits are all defined, and of one value
    /// with a bit no flag defines: the names of the set flags in the order
    /// the flags are declared, a flag being named when all its bits are set
    /// and it shows some bit not shown before, then any bits left in hex.
    pub proof fn lemma_debug_text_values()
        ensures
            Self::spec_debug_text(0x0u32) == "VideoTransform"@ + "(0x0)"@,
            Self::spec_debug_text(0x1u32) == "VideoTransform"@ + "("@ + "ROT_90"@ + ")"@,
            Self::spec_debug_text(0x2u32) == "VideoTransform"@ + "("@ + "ROT_180"@ + ")"@,
            Self::spec_debug_text(0x3u32) == "VideoTransform"@ + "("@ + "ROT_90"@ + " | "@ + "ROT_180"@ + ")"@,
            Self::spec_debug_text(0x4u32) == "VideoTransform"@ + "("@ + "FLIP_X"@ + ")"@,
            Self::spec_debug_text(0x5u32) == "VideoTransform"@ + "("@ + "ROT_90"@ + " | "@ + "FLIP_X"@ + ")"@,
            Self::spec_debug_text(0x6u32) == "VideoTransform"@ + "("@ + "ROT_180"@ + " | "@ + "FLIP_X"@ + ")"@,
            Self::spec_debug_text(0x7u32) == "VideoTransform"@ + "("@ + "ROT_90"@ + " | "@ + "ROT_180"@ + " | "@ + "FLIP_X"@ + ")"@,
            Self::spec_debug_text(0x9u32) == "VideoTransform"@ + "("@ + "ROT_90"@ + " | "@ + "0x"@ + "8"@ + ")"@,
    {
        reveal_with_fuel(crate::flags::walk_text, 9);
        reveal_with_fuel(crate::flags::hex, 3);
        assert(0x1u32 & !0x1u32 == 0x0u32 && 0x1u32 & 0x0u32 == 0x0u32 && 0x1u32 & 0x1u32 == 0x1u32 && 0x2u32 & !0x2u32 == 0x0u32 && 0x2u32 & 0x0u32 == 0x0u32 && 0x2u32 & 0x1u32 == 0x0u32 && 0x2u32 & 0x2u32 == 0x2u32 && 0x3u32 & !0x1u32 == 0x2u32 && 0x3u32 & 0x0u32 == 0x0u32 && 0x3u32 & 0x1u32 == 0x1u32 && 0x3u32 & 0x2u32 == 0x2u32 && 0x4u32 & !0x4u32 == 0x0u32 && 0x4u32 & 0x0u32 == 0x0u32 && 0x4u32 & 0x1u32 == 0x0u32 && 0x4u32 & 0x2u32 == 0x0u32 && 0x4u32 & 0x3u32 == 0x0u32 && 0x4u32 & 0x4u32 == 0x4u32 && 0x5u32 & !0x1u32 == 0x4u32 && 0x5u32 & 0x0u32 == 0x0u32 && 0x5u32 & 0x1u32 == 0x1u32 && 0x5u32 & 0x2u32 == 0x0u32 && 0x5u32 & 0x3u32 == 0x1u32 && 0x5u32 & 0x4u32 == 0x4u32 && 0x6u32 & !0x2u32 == 0x4u32 && 0x6u32 & 0x0u32 == 0x0u32 && 0x6u32 & 0x1u32 == 0x0u32 && 0x6u32 & 0x2u32 == 0x2u32 && 0x6u32 & 0x3u32 == 0x2u32 && 0x6u32 & 0x4u32 == 0x4u32 && 0x7u32 & !0x1u32 == 0x6u32 && 0x7u32 & 0x0u32 == 0x0u32 && 0x7u32 & 0x1u32 == 0x1u32 && 0x7u32 & 0x2u32 == 0x2u32 && 0x7u32 & 0x3u32 == 0x3u32 && 0x7u32 & 0x4u32 == 0x4u32 && 0x9u32 & !0x1u32 == 0x8u32 && 0x9u32 & 0x0u32 == 0x0u32 && 0x9u32 & 0x1u32 == 0x1u32 && 0x9u32 & 0x2u32 == 0x0u32 && 0x9u32 & 0x3u32 == 0x1u32 && 0x9u32 & 0x4u32 == 0x0u32 && 0x9u32 & 0x5u32 == 0x1u32 && 0x9u32 & 0x6u32 == 0x0u32) by (bit_vector);
    }

    /// No flag set.
    pub fn empty() -> (r: Self)
        ensures
            r@ == 0,
    {
        Self(0)
    }

    /// Every defined flag set.
    pub fn all() -> (r: Self)
        ensures
            r@ == Self::spec_all_bits(),
    {
        Self(0x7)
    }

    pub fn bits(&self) -> (r: u32)
        ensures
            r == self@,
    {
        self.0
    }

    /// The flags of `bits`, undefined bits kept.
    pub fn from_bits_retain(bits: u32) -> (r: Self)
        ensures
            r@ == bits,
            r == Self::spec_from_bits_retain(bits),
    {
        Self(bits)
    }

    /// The flags of `bits`, undefined bits dropped.
    pub fn from_bits_truncate(bits: u32) -> (r: Self)
        ensures
            r@ == bits & Self::spec_all_bits(),
            r == Self::spec_from_bits_truncate(bits),
    {
        Self(bits & 0x7)
    }

    /// The flags of `bits` when every set bit is a defined flag, else `None`.
    pub fn from_bits(bits: u32) -> (r: Option<Self>)
        ensures
            r is Some <==> bits & Self::spec_all_bits() == bits,
            r matches Some(f) ==> f@ == bits,
            r == Self::spec_from_bits(bits),
    {
        if bits & 0x7 == bits {
            Some(Self(bits))
        } else {
            None
        }
    }

    pub fn is_empty(&self) -> (r: bool)
        ensures
            r == (self@ == 0),
    {
        self.0 == 0
    }

    /// Whether every flag of `other` is set in `self`.
    pub fn contains(&self, other: Self) -> (r: bool)
        ensures
            r == self.spec_contains(other),
    {
        self.0 & other.0 == other.0
    }

    /// Whether some flag of `other` is set in `self`.
    pub fn intersects(&self, other: Self) -> (r: bool)
        ensures
            r == self.spec_intersects(other),
    {
        self.0 & other.0 != 0
    }

    /// Sets the flags of `other`.
    pub fn insert(&mut self, other: Self)
        ensures
            final(self)@ == old(self)@ | other@,
            *final(self) == old(self).spec_union(other),
    {
        self.0 = self.0 | other.0;
    }

    /// Clears the flags of `other`.
    pub fn remove(&mut self, other: Self)
        ensures
            final(self)@ == old(self)@ & !other@,
            *final(self) == old(self).spec_difference(other),
    {
        self.0 = self.0 & !other.0;
    }

    /// The flags set in `self` or in `other`.
    pub fn union(self, other: Self) -> (r: Self)
        ensures
            r@ == self@ | other@,
            r == self.spec_union(other),
    {
        Self(self.0 | other.0)
    }

    /// Whether every defined flag is set.
    pub fn is_all(&self) -> (r: bool)
        ensures
            r == (Self::spec_all_bits() | self@ == self@),
    {
        0x7 | self.0 == self.0
    }

    /// Flips the flags of `other`.
    pub fn toggle(&mut self, other: Self)
        ensures
            final(self)@ == old(self)@ ^ other@,
            *final(self) == old(self).spec_symmetric_difference(other),
    {
        self.0 = self.0 ^ other.0;
    }

    /// Sets the flags of `other` when `value` holds, clears them otherwise.
    pub fn set(&mut self, other: Self, value: bool)
        ensures
            value ==> *final(self) == old(self).spec_union(other),
            !value ==> *final(self) == old(self).spec_difference(other),
            final(self)@ == if value { old(self)@ | other@ } else { old(self)@ & !other@ },
    {
        if value {
            self.insert(other);
        } else {
            self.remove(other);
        }
    }

    /// The flags set in both `self` and `other`.
    pub fn intersection(self, other: Self) -> (r: Self)
        ensures
            r@ == self@ & other@,
            r == self.spec_intersection(other),
    {
        Self(self.0 & other.0)
    }

    /// The flags set in `self` and not in `other`.
    pub fn difference(self, other: Self) -> (r: Self)
        ensures
            r@ == self@ & !other@,
            r == self.spec_difference(other),
    {
        Self(self.0 & !other.0)
    }

    /// The flags set in exactly one of `self` and `other`.
    pub fn symmetric_difference(self, other: Self) -> (r: Self)
        ensures
            r@ == self@ ^ other@,
            r == self.spec_symmetric_difference(other),
    {
        Self(self.0 ^ other.0)
    }

    /// The defined flags not set in `self`.
    pub fn complement(self) -> (r: Self)
        ensures
            r@ == !self@ & Self::spec_all_bits(),
            r == self.spec_complement(),
    {
        Self::from_bits_truncate(!self.0)
    }

    /// The text of the value; see `spec_debug_text`.
    pub fn debug_text(&self) -> (r: String)
        ensures
            r@ == Self::spec_debug_text(self@),
    {
        let names: [&'static str; 7] = ["IDENTITY", "ROT_90", "ROT_180", "ROT_270", "FLIP_X", "FLIP_Y", "FLIP_XY"];
        let values: [u32; 7] = [0x0, 0x1, 0x2, 0x3, 0x4, 0x5, 0x6];
        assert(names@.map_values(|n: &'static str| n@) =~= seq!["IDENTITY"@, "ROT_90"@, "ROT_180"@, "ROT_270"@, "FLIP_X"@, "FLIP_Y"@, "FLIP_XY"@]);
        assert(values@ =~= seq![0x0u32, 0x1u32, 0x2u32, 0x3u32, 0x4u32, 0x5u32, 0x6u32]);
        crate::flags::flag_text_of("VideoTransform", names.as_slice(), values.as_slice(), self.0)
    }
}

impl core::ops::BitOr for VideoTransform {
    type Output = Self;

    /// `union`.
    fn bitor(self, other: Self) -> (r: Self)
        ensures
            r == self.spec_union(other),
    {
        self.union(other)
    }
}

impl vstd::std_specs::ops::BitOrSpecImpl for VideoTransform {
    open spec fn obeys_bitor_spec() -> bool {
        true
    }

    open spec fn bitor_req(self, other: Self) -> bool {
        true
    }

    open spec fn bitor_spec(self, other: Self) -> Self {
        self.spec_union(other)
    }
}

impl core::ops::BitAnd for VideoTransform {
    type Output = Self;

    /// `intersection`.
    fn bitand(self, other: Self) -> (r: Self)
        ensures
            r == self.spec_intersection(other),
    {
        self.intersection(other)
    }
}

impl vstd::std_specs::ops::BitAndSpecImpl for VideoTransform {
    open spec fn obeys_bitand_spec() -> bool {
        true
    }

    open spec fn bitand_req(self, other: Self) -> bool {
        true
    }

    open spec fn bitand_spec(self, other: Self) -> Self {
        self.spec_intersection(other)
    }
}

impl core::ops::BitXor for VideoTransform {
    type Output = Self;

    /// `symmetric_difference`.
    fn bitxor(self, other: Self) -> (r: Self)
        ensures
            r == self.spec_symmetric_difference(other),
    {
        self.symmetric_difference(other)
    }
}

impl vstd::std_specs::ops::BitXorSpecImpl for VideoTransform {
    open spec fn obeys_bitxor_spec() -> bool {
        true
    }

    open spec fn bitxor_req(self, other: Self) -> bool {
        true
    }

    open spec fn bitxor_spec(self, other: Self) -> Self {
        self.spec_symmetric_difference(other)
    }
}

impl core::ops::Sub for VideoTransform {
    type Output = Self;

    /// `difference`.
    fn sub(self, other: Self) -> (r: Self)
        ensures
            r == self.spec_difference(other),
    {
        self.difference(other)
    }
}

impl vstd::std_specs::ops::SubSpecImpl for VideoTransform {
    open spec fn obeys_sub_spec() -> bool {
        true
    }

    open spec fn sub_req(self, other: Self) -> bool {
        true
    }

    open spec fn sub_spec(self, other: Self) -> Self {
        self.spec_difference(other)
    }
}

impl core::ops::Not for VideoTransform {
    type Output = Self;

    /// `complement`.
    fn not(self) -> (r: Self)
        ensures
            r == self.spec_complement(),
    {
        self.complement()
    }
}

impl vstd::std_specs::ops::NotSpecImpl for VideoTransform {
    open spec fn obeys_not_spec() -> bool {
        true
    }

    open spec fn not_req(self) -> bool {
        true
    }

    open spec fn not_spec(self) -> Self {
        self.spec_complement()
    }
}

/// Transform metadata: how to transform the video frame.
#[derive(PartialEq, Eq, Structural, Debug)]
pub struct MetaVideoTransform(spa_meta_videotransform);

impl View for MetaVideoTransform {
    type V = spa_meta_videotransform;

    closed spec fn view(&self) -> spa_meta_videotransform {
        self.0
    }
}

impl MetaVideoTransform {
    /// Two values are equal exactly when their views are.
    pub proof fn lemma_eq_iff_view_eq(a: Self, b: Self)
        ensures
            (a == b) <==> (a@ == b@),
    {
    }
}

impl MetaVideoTransform {
    /// The view of a raw structure.
    pub fn from_raw(raw: spa_meta_videotransform) -> (r: Self)
        ensures
            r@ == raw,
    {
        Self(raw)
    }

    pub fn as_raw(&self) -> (r: &spa_meta_videotransform)
        ensures
            *r == self@,
    {
        &self.0
    }

    /// The transform, undefined bits kept.
    pub fn transform(&self) -> (r: VideoTransform)
        ensures
            r@ == self@.transform,
    {
        VideoTransform::from_bits_retain(self.0.transform)
    }
}

impl Metadata for MetaVideoTransform {
    const META_TYPE: u32 = SPA_META_VideoTransform;
}

/// Sync timeline metadata: when the data may be read and must be released.
#[derive(PartialEq, Eq, Structural, Debug)]
pub struct MetaSyncTimeline(spa_meta_sync_timeline);

impl View for MetaSyncTimeline {
    type V = spa_meta_sync_timeline;

    closed spec fn view(&self) -> spa_meta_sync_timeline {
        self.0
    }
}

impl MetaSyncTimeline {
    /// Two values are equal exactly when their views are.
    pub proof fn lemma_eq_iff_view_eq(a: Self, b: Self)
        ensures
            (a == b) <==> (a@ == b@),
    {
    }
}

impl MetaSyncTimeline {
    /// The view of a raw structure.
    pub fn from_raw(raw: spa_meta_sync_timeline) -> (r: Self)
        ensures
            r@ == raw,
    {
        Self(raw)
    }

    pub fn as_raw(&self) -> (r: &spa_meta_sync_timeline)
        ensures
            *r == self@,
    {
        &self.0
    }

    pub fn flags(&self) -> (r: u32)
        ensures
            r == self@.flags,
    {
        self.0.flags
    }

    pub fn padding(&self) -> (r: u32)
        ensures
            r == self@.padding,
    {
        self.0.padding
    }

    /// The timeline acquire point - when the data can be accessed
    pub fn acquire_point(&self) -> (r: u64)
        ensures
            r == self@.acquire_point,
    {
        self.0.acquire_point
    }

    /// The timeline release point - should be signaled when data is no longer accessed
    pub fn release_point(&self) -> (r: u64)
        ensures
            r == self@.release_point,
    {
        self.0.release_point
    }
}

impl Metadata for MetaSyncTimeline {
    const META_TYPE: u32 = SPA_META_SyncTimeline;
}
} // verus!
