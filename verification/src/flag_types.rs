use vstd::prelude::*;

use crate::debug_color::{debug_color_serialization, serialize_debug_color};
use crate::flags::{
    by_ones_serialization, parse_flags, parse_flags_spec, serialize_by_ones_decreasing,
    serialize_single_bit, single_bit_serialization, FlagsParseError, FlagsValue,
};

verus! {

/// The flags of a bin.
#[derive(Clone, Copy, Debug, PartialEq, Eq, Structural, Hash)]
pub struct BinFlags {
    bits: u32,
}

impl View for BinFlags {
    type V = u32;

    closed spec fn view(&self) -> u32 {
        self.bits
    }
}

impl BinFlags {
    /// The bits of all the flags of the type.
    pub open spec fn spec_all_bits() -> u32 {
        0x300000
    }

    /// The values registered for the type, in registration order.
    pub open spec fn spec_values() -> Seq<FlagsValue> {
        seq![
            FlagsValue { value: 0x100000, nick: "no-resync" },
            FlagsValue { value: 0x200000, nick: "streams-aware" }
        ]
    }

    /// The flags with the given bits.
    pub closed spec fn spec_from_bits(bits: u32) -> Self {
        BinFlags { bits }
    }

    /// The flags built from `bits` hold `bits`.
    pub broadcast proof fn lemma_from_bits(bits: u32)
        ensures
            #[trigger] Self::spec_from_bits(bits)@ == bits,
    {
    }

    /// Flags holding the same bits are equal.
    pub proof fn lemma_view_injective(a: Self, b: Self)
        requires
            a@ == b@,
        ensures
            a == b,
    {
    }

    /// Returns the values registered for the type, in registration order.
    pub fn values() -> (r: Vec<FlagsValue>)
        ensures
            r@ == Self::spec_values(),
    {
        let r = vec![
            FlagsValue { value: 0x100000, nick: "no-resync" },
            FlagsValue { value: 0x200000, nick: "streams-aware" }
        ];
        proof {
            assert(r@ =~= Self::spec_values());
        }
        r
    }

    /// Returns the empty set of flags.
    pub fn empty() -> (r: Self)
        ensures
            r@ == 0,
    {
        BinFlags { bits: 0 }
    }

    /// Returns the set of all the flags of the type.
    pub fn all() -> (r: Self)
        ensures
            r@ == Self::spec_all_bits(),
    {
        BinFlags { bits: 0x300000 }
    }

    /// Returns the bits of `self`.
    pub fn bits(&self) -> (r: u32)
        ensures
            r == self@,
    {
        self.bits
    }

    /// Returns the flags of `bits`, dropping the bits that name no flag.
    pub fn from_bits_truncate(bits: u32) -> (r: Self)
        ensures
            r@ == bits & Self::spec_all_bits(),
    {
        BinFlags { bits: bits & 0x300000 }
    }

    /// Returns the flags of `bits`, or `None` if a bit names no flag.
    pub fn from_bits(bits: u32) -> (r: Option<Self>)
        ensures
            r is Some <==> bits & !Self::spec_all_bits() == 0,
            r matches Some(f) ==> f@ == bits,
    {
        if bits & !0x300000 == 0 {
            Some(BinFlags { bits })
        } else {
            None
        }
    }

    /// Returns whether all the flags of `other` are set in `self`.
    pub fn contains(&self, other: Self) -> (r: bool)
        ensures
            r == (self@ & other@ == other@),
    {
        self.bits & other.bits == other.bits
    }

    /// Returns whether no flag is set.
    pub fn is_empty(&self) -> (r: bool)
        ensures
            r == (self@ == 0),
    {
        self.bits == 0
    }

    /// Returns the flags set in `self` or in `other`.
    pub fn union(self, other: Self) -> (r: Self)
        ensures
            r@ == self@ | other@,
    {
        BinFlags { bits: self.bits | other.bits }
    }

    /// The `no-resync` flags.
    #[allow(non_snake_case)]
    pub fn NO_RESYNC() -> (r: Self)
        ensures
            r@ == 0x100000,
    {
        BinFlags { bits: 0x100000 }
    }

    /// The `streams-aware` flags.
    #[allow(non_snake_case)]
    pub fn STREAMS_AWARE() -> (r: Self)
        ensures
            r@ == 0x200000,
    {
        BinFlags { bits: 0x200000 }
    }

    /// Returns the nicks of the single-bit values set in `self`, in
    /// registration order and each bit once, joined with `+`.
    pub fn serialize(&self) -> (r: String)
        ensures
            r@ == single_bit_serialization(Self::spec_values(), self@).0,
    {
        serialize_single_bit(&Self::values(), self.bits)
    }

    /// Parses a string of nicks joined with `+` (the empty string names no
    /// flag), keeping the bits that name flags of the type. Fails if a nick
    /// is not one of the type's.
    pub fn deserialize(s: &str) -> (r: Result<Self, FlagsParseError>)
        ensures
            r is Err <==> parse_flags_spec(Self::spec_values(), s@) is None,
            r matches Ok(f) ==> f@ == parse_flags_spec(Self::spec_values(), s@)->0
                & Self::spec_all_bits(),
    {
        match parse_flags(&Self::values(), s) {
            Some(b) => Ok(Self::from_bits_truncate(b)),
            None => Err(FlagsParseError),
        }
    }
}

impl core::ops::BitOr for BinFlags {
    type Output = BinFlags;

    fn bitor(self, rhs: BinFlags) -> (r: BinFlags) {
        BinFlags { bits: self.bits | rhs.bits }
    }
}

impl vstd::std_specs::ops::BitOrSpecImpl for BinFlags {
    open spec fn obeys_bitor_spec() -> bool {
        true
    }

    open spec fn bitor_req(self, rhs: BinFlags) -> bool {
        true
    }

    open spec fn bitor_spec(self, rhs: BinFlags) -> BinFlags {
        Self::spec_from_bits(self@ | rhs@)
    }
}

/// What a buffer copy copies.
#[derive(Clone, Copy, Debug, PartialEq, Eq, Structural, Hash)]
pub struct BufferCopyFlags {
    bits: u32,
}

impl View for BufferCopyFlags {
    type V = u32;

    closed spec fn view(&self) -> u32 {
        self.bits
    }
}

impl BufferCopyFlags {
    /// The bits of all the flags of the type.
    pub open spec fn spec_all_bits() -> u32 {
        0x3f
    }

    /// The values registered for the type, in registration order.
    pub open spec fn spec_values() -> Seq<FlagsValue> {
        seq![
            FlagsValue { value: 0x0, nick: "none" },
            FlagsValue { value: 0x1, nick: "flags" },
            FlagsValue { value: 0x2, nick: "timestamps" },
            FlagsValue { value: 0x4, nick: "meta" },
            FlagsValue { value: 0x8, nick: "memory" },
            FlagsValue { value: 0x10, nick: "merge" },
            FlagsValue { value: 0x20, nick: "deep" }
        ]
    }

    /// The flags with the given bits.
    pub closed spec fn spec_from_bits(bits: u32) -> Self {
        BufferCopyFlags { bits }
    }

    /// The flags built from `bits` hold `bits`.
    pub broadcast proof fn lemma_from_bits(bits: u32)
        ensures
            #[trigger] Self::spec_from_bits(bits)@ == bits,
    {
    }

    /// Flags holding the same bits are equal.
    pub proof fn lemma_view_injective(a: Self, b: Self)
        requires
            a@ == b@,
        ensures
            a == b,
    {
    }

    /// Returns the values registered for the type, in registration order.
    pub fn values() -> (r: Vec<FlagsValue>)
        ensures
            r@ == Self::spec_values(),
    {
        let r = vec![
            FlagsValue { value: 0x0, nick: "none" },
            FlagsValue { value: 0x1, nick: "flags" },
            FlagsValue { value: 0x2, nick: "timestamps" },
            FlagsValue { value: 0x4, nick: "meta" },
            FlagsValue { value: 0x8, nick: "memory" },
            FlagsValue { value: 0x10, nick: "merge" },
            FlagsValue { value: 0x20, nick: "deep" }
        ];
        proof {
            assert(r@ =~= Self::spec_values());
        }
        r
    }

    /// Returns the empty set of flags.
    pub fn empty() -> (r: Self)
        ensures
            r@ == 0,
    {
        BufferCopyFlags { bits: 0 }
    }

    /// Returns the set of all the flags of the type.
    pub fn all() -> (r: Self)
        ensures
            r@ == Self::spec_all_bits(),
    {
        BufferCopyFlags { bits: 0x3f }
    }

    /// Returns the bits of `self`.
    pub fn bits(&self) -> (r: u32)
        ensures
            r == self@,
    {
        self.bits
    }

    /// Returns the flags of `bits`, dropping the bits that name no flag.
    pub fn from_bits_truncate(bits: u32) -> (r: Self)
        ensures
            r@ == bits & Self::spec_all_bits(),
    {
        BufferCopyFlags { bits: bits & 0x3f }
    }

    /// Returns the flags of `bits`, or `None` if a bit names no flag.
    pub fn from_bits(bits: u32) -> (r: Option<Self>)
        ensures
            r is Some <==> bits & !Self::spec_all_bits() == 0,
            r matches Some(f) ==> f@ == bits,
    {
        if bits & !0x3f == 0 {
            Some(BufferCopyFlags { bits })
        } else {
            None
        }
    }

    /// Returns whether all the flags of `other` are set in `self`.
    pub fn contains(&self, other: Self) -> (r: bool)
        ensures
            r == (self@ & other@ == other@),
    {
        self.bits & other.bits == other.bits
    }

    /// Returns whether no flag is set.
    pub fn is_empty(&self) -> (r: bool)
        ensures
            r == (self@ == 0),
    {
        self.bits == 0
    }

    /// Returns the flags set in `self` or in `other`.
    pub fn union(self, other: Self) -> (r: Self)
        ensures
            r@ == self@ | other@,
    {
        BufferCopyFlags { bits: self.bits | other.bits }
    }

    /// The `flags` flags.
    #[allow(non_snake_case)]
    pub fn FLAGS() -> (r: Self)
        ensures
            r@ == 0x1,
    {
        BufferCopyFlags { bits: 0x1 }
    }

    /// The `timestamps` flags.
    #[allow(non_snake_case)]
    pub fn TIMESTAMPS() -> (r: Self)
        ensures
            r@ == 0x2,
    {
        BufferCopyFlags { bits: 0x2 }
    }

    /// The `meta` flags.
    #[allow(non_snake_case)]
    pub fn META() -> (r: Self)
        ensures
            r@ == 0x4,
    {
        BufferCopyFlags { bits: 0x4 }
    }

    /// The `memory` flags.
    #[allow(non_snake_case)]
    pub fn MEMORY() -> (r: Self)
        ensures
            r@ == 0x8,
    {
        BufferCopyFlags { bits: 0x8 }
    }

    /// The `merge` flags.
    #[allow(non_snake_case)]
    pub fn MERGE() -> (r: Self)
        ensures
            r@ == 0x10,
    {
        BufferCopyFlags { bits: 0x10 }
    }

    /// The `deep` flags.
    #[allow(non_snake_case)]
    pub fn DEEP() -> (r: Self)
        ensures
            r@ == 0x20,
    {
        BufferCopyFlags { bits: 0x20 }
    }

    /// Returns the nicks of the single-bit values set in `self`, in
    /// registration order and each bit once, joined with `+`.
    pub fn serialize(&self) -> (r: String)
        ensures
            r@ == single_bit_serialization(Self::spec_values(), self@).0,
    {
        serialize_single_bit(&Self::values(), self.bits)
    }

    /// Parses a string of nicks joined with `+` (the empty string names no
    /// flag), keeping the bits that name flags of the type. Fails if a nick
    /// is not one of the type's.
    pub fn deserialize(s: &str) -> (r: Result<Self, FlagsParseError>)
        ensures
            r is Err <==> parse_flags_spec(Self::spec_values(), s@) is None,
            r matches Ok(f) ==> f@ == parse_flags_spec(Self::spec_values(), s@)->0
                & Self::spec_all_bits(),
    {
        match parse_flags(&Self::values(), s) {
            Some(b) => Ok(Self::from_bits_truncate(b)),
            None => Err(FlagsParseError),
        }
    }
}

impl core::ops::BitOr for BufferCopyFlags {
    type Output = BufferCopyFlags;

    fn bitor(self, rhs: BufferCopyFlags) -> (r: BufferCopyFlags) {
        BufferCopyFlags { bits: self.bits | rhs.bits }
    }
}

impl vstd::std_specs::ops::BitOrSpecImpl for BufferCopyFlags {
    open spec fn obeys_bitor_spec() -> bool {
        true
    }

    open spec fn bitor_req(self, rhs: BufferCopyFlags) -> bool {
        true
    }

    open spec fn bitor_spec(self, rhs: BufferCopyFlags) -> BufferCopyFlags {
        Self::spec_from_bits(self@ | rhs@)
    }
}

/// The flags of a buffer.
#[derive(Clone, Copy, Debug, PartialEq, Eq, Structural, Hash)]
pub struct BufferFlags {
    bits: u32,
}

impl View for BufferFlags {
    type V = u32;

    closed spec fn view(&self) -> u32 {
        self.bits
    }
}

impl BufferFlags {
    /// The bits of all the flags of the type.
    pub open spec fn spec_all_bits() -> u32 {
        0x1fff0
    }

    /// The values registered for the type, in registration order.
    pub open spec fn spec_values() -> Seq<FlagsValue> {
        seq![
            FlagsValue { value: 0x10, nick: "live" },
            FlagsValue { value: 0x20, nick: "decode-only" },
            FlagsValue { value: 0x40, nick: "discont" },
            FlagsValue { value: 0x80, nick: "resync" },
            FlagsValue { value: 0x100, nick: "corrupted" },
            FlagsValue { value: 0x200, nick: "marker" },
            FlagsValue { value: 0x400, nick: "header" },
            FlagsValue { value: 0x800, nick: "gap" },
            FlagsValue { value: 0x1000, nick: "droppable" },
            FlagsValue { value: 0x2000, nick: "delta-unit" },
            FlagsValue { value: 0x4000, nick: "tag-memory" },
            FlagsValue { value: 0x8000, nick: "sync-after" },
            FlagsValue { value: 0x10000, nick: "non-droppable" }
        ]
    }

    /// The flags with the given bits.
    pub closed spec fn spec_from_bits(bits: u32) -> Self {
        BufferFlags { bits }
    }

    /// The flags built from `bits` hold `bits`.
    pub broadcast proof fn lemma_from_bits(bits: u32)
        ensures
            #[trigger] Self::spec_from_bits(bits)@ == bits,
    {
    }

    /// Flags holding the same bits are equal.
    pub proof fn lemma_view_injective(a: Self, b: Self)
        requires
            a@ == b@,
        ensures
            a == b,
    {
    }

    /// Returns the values registered for the type, in registration order.
    pub fn values() -> (r: Vec<FlagsValue>)
        ensures
            r@ == Self::spec_values(),
    {
        let r = vec![
            FlagsValue { value: 0x10, nick: "live" },
            FlagsValue { value: 0x20, nick: "decode-only" },
            FlagsValue { value: 0x40, nick: "discont" },
            FlagsValue { value: 0x80, nick: "resync" },
            FlagsValue { value: 0x100, nick: "corrupted" },
            FlagsValue { value: 0x200, nick: "marker" },
            FlagsValue { value: 0x400, nick: "header" },
            FlagsValue { value: 0x800, nick: "gap" },
            FlagsValue { value: 0x1000, nick: "droppable" },
            FlagsValue { value: 0x2000, nick: "delta-unit" },
            FlagsValue { value: 0x4000, nick: "tag-memory" },
            FlagsValue { value: 0x8000, nick: "sync-after" },
            FlagsValue { value: 0x10000, nick: "non-droppable" }
        ];
        proof {
            assert(r@ =~= Self::spec_values());
        }
        r
    }

    /// Returns the empty set of flags.
    pub fn empty() -> (r: Self)
        ensures
            r@ == 0,
    {
        BufferFlags { bits: 0 }
    }

    /// Returns the set of all the flags of the type.
    pub fn all() -> (r: Self)
        ensures
            r@ == Self::spec_all_bits(),
    {
        BufferFlags { bits: 0x1fff0 }
    }

    /// Returns the bits of `self`.
    pub fn bits(&self) -> (r: u32)
        ensures
            r == self@,
    {
        self.bits
    }

    /// Returns the flags of `bits`, dropping the bits that name no flag.
    pub fn from_bits_truncate(bits: u32) -> (r: Self)
        ensures
            r@ == bits & Self::spec_all_bits(),
    {
        BufferFlags { bits: bits & 0x1fff0 }
    }

    /// Returns the flags of `bits`, or `None` if a bit names no flag.
    pub fn from_bits(bits: u32) -> (r: Option<Self>)
        ensures
            r is Some <==> bits & !Self::spec_all_bits() == 0,
            r matches Some(f) ==> f@ == bits,
    {
        if bits & !0x1fff0 == 0 {
            Some(BufferFlags { bits })
        } else {
            None
        }
    }

    /// Returns whether all the flags of `other` are set in `self`.
    pub fn contains(&self, other: Self) -> (r: bool)
        ensures
            r == (self@ & other@ == other@),
    {
        self.bits & other.bits == other.bits
    }

    /// Returns whether no flag is set.
    pub fn is_empty(&self) -> (r: bool)
        ensures
            r == (self@ == 0),
    {
        self.bits == 0
    }

    /// Returns the flags set in `self` or in `other`.
    pub fn union(self, other: Self) -> (r: Self)
        ensures
            r@ == self@ | other@,
    {
        BufferFlags { bits: self.bits | other.bits }
    }

    /// The `live` flags.
    #[allow(non_snake_case)]
    pub fn LIVE() -> (r: Self)
        ensures
            r@ == 0x10,
    {
        BufferFlags { bits: 0x10 }
    }

    /// The `decode-only` flags.
    #[allow(non_snake_case)]
    pub fn DECODE_ONLY() -> (r: Self)
        ensures
            r@ == 0x20,
    {
        BufferFlags { bits: 0x20 }
    }

    /// The `discont` flags.
    #[allow(non_snake_case)]
    pub fn DISCONT() -> (r: Self)
        ensures
            r@ == 0x40,
    {
        BufferFlags { bits: 0x40 }
    }

    /// The `resync` flags.
    #[allow(non_snake_case)]
    pub fn RESYNC() -> (r: Self)
        ensures
            r@ == 0x80,
    {
        BufferFlags { bits: 0x80 }
    }

    /// The `corrupted` flags.
    #[allow(non_snake_case)]
    pub fn CORRUPTED() -> (r: Self)
        ensures
            r@ == 0x100,
    {
        BufferFlags { bits: 0x100 }
    }

    /// The `marker` flags.
    #[allow(non_snake_case)]
    pub fn MARKER() -> (r: Self)
        ensures
            r@ == 0x200,
    {
        BufferFlags { bits: 0x200 }
    }

    /// The `header` flags.
    #[allow(non_snake_case)]
    pub fn HEADER() -> (r: Self)
        ensures
            r@ == 0x400,
    {
        BufferFlags { bits: 0x400 }
    }

    /// The `gap` flags.
    #[allow(non_snake_case)]
    pub fn GAP() -> (r: Self)
        ensures
            r@ == 0x800,
    {
        BufferFlags { bits: 0x800 }
    }

    /// The `droppable` flags.
    #[allow(non_snake_case)]
    pub fn DROPPABLE() -> (r: Self)
        ensures
            r@ == 0x1000,
    {
        BufferFlags { bits: 0x1000 }
    }

    /// The `delta-unit` flags.
    #[allow(non_snake_case)]
    pub fn DELTA_UNIT() -> (r: Self)
        ensures
            r@ == 0x2000,
    {
        BufferFlags { bits: 0x2000 }
    }

    /// The `tag-memory` flags.
    #[allow(non_snake_case)]
    pub fn TAG_MEMORY() -> (r: Self)
        ensures
            r@ == 0x4000,
    {
        BufferFlags { bits: 0x4000 }
    }

    /// The `sync-after` flags.
    #[allow(non_snake_case)]
    pub fn SYNC_AFTER() -> (r: Self)
        ensures
            r@ == 0x8000,
    {
        BufferFlags { bits: 0x8000 }
    }

    /// The `non-droppable` flags.
    #[allow(non_snake_case)]
    pub fn NON_DROPPABLE() -> (r: Self)
        ensures
            r@ == 0x10000,
    {
        BufferFlags { bits: 0x10000 }
    }

    /// Returns the nicks of the single-bit values set in `self`, in
    /// registration order and each bit once, joined with `+`.
    pub fn serialize(&self) -> (r: String)
        ensures
            r@ == single_bit_serialization(Self::spec_values(), self@).0,
    {
        serialize_single_bit(&Self::values(), self.bits)
    }

    /// Parses a string of nicks joined with `+` (the empty string names no
    /// flag), keeping the bits that name flags of the type. Fails if a nick
    /// is not one of the type's.
    pub fn deserialize(s: &str) -> (r: Result<Self, FlagsParseError>)
        ensures
            r is Err <==> parse_flags_spec(Self::spec_values(), s@) is None,
            r matches Ok(f) ==> f@ == parse_flags_spec(Self::spec_values(), s@)->0
                & Self::spec_all_bits(),
    {
        match parse_flags(&Self::values(), s) {
            Some(b) => Ok(Self::from_bits_truncate(b)),
            None => Err(FlagsParseError),
        }
    }
}

impl core::ops::BitOr for BufferFlags {
    type Output = BufferFlags;

    fn bitor(self, rhs: BufferFlags) -> (r: BufferFlags) {
        BufferFlags { bits: self.bits | rhs.bits }
    }
}

impl vstd::std_specs::ops::BitOrSpecImpl for BufferFlags {
    open spec fn obeys_bitor_spec() -> bool {
        true
    }

    open spec fn bitor_req(self, rhs: BufferFlags) -> bool {
        true
    }

    open spec fn bitor_spec(self, rhs: BufferFlags) -> BufferFlags {
        Self::spec_from_bits(self@ | rhs@)
    }
}

/// The flags of a buffer pool acquisition.
#[derive(Clone, Copy, Debug, PartialEq, Eq, Structural, Hash)]
pub struct BufferPoolAcquireFlags {
    bits: u32,
}

impl View for BufferPoolAcquireFlags {
    type V = u32;

    closed spec fn view(&self) -> u32 {
        self.bits
    }
}

impl BufferPoolAcquireFlags {
    /// The bits of all the flags of the type.
    pub open spec fn spec_all_bits() -> u32 {
        0x7
    }

    /// The values registered for the type, in registration order.
    pub open spec fn spec_values() -> Seq<FlagsValue> {
        seq![
            FlagsValue { value: 0x0, nick: "none" },
            FlagsValue { value: 0x1, nick: "key-unit" },
            FlagsValue { value: 0x2, nick: "dontwait" },
            FlagsValue { value: 0x4, nick: "discont" }
        ]
    }

    /// The flags with the given bits.
    pub closed spec fn spec_from_bits(bits: u32) -> Self {
        BufferPoolAcquireFlags { bits }
    }

    /// The flags built from `bits` hold `bits`.
    pub broadcast proof fn lemma_from_bits(bits: u32)
        ensures
            #[trigger] Self::spec_from_bits(bits)@ == bits,
    {
    }

    /// Flags holding the same bits are equal.
    pub proof fn lemma_view_injective(a: Self, b: Self)
        requires
            a@ == b@,
        ensures
            a == b,
    {
    }

    /// Returns the values registered for the type, in registration order.
    pub fn values() -> (r: Vec<FlagsValue>)
        ensures
            r@ == Self::spec_values(),
    {
        let r = vec![
            FlagsValue { value: 0x0, nick: "none" },
            FlagsValue { value: 0x1, nick: "key-unit" },
            FlagsValue { value: 0x2, nick: "dontwait" },
            FlagsValue { value: 0x4, nick: "discont" }
        ];
        proof {
            assert(r@ =~= Self::spec_values());
        }
        r
    }

    /// Returns the empty set of flags.
    pub fn empty() -> (r: Self)
        ensures
            r@ == 0,
    {
        BufferPoolAcquireFlags { bits: 0 }
    }

    /// Returns the set of all the flags of the type.
    pub fn all() -> (r: Self)
        ensures
            r@ == Self::spec_all_bits(),
    {
        BufferPoolAcquireFlags { bits: 0x7 }
    }

    /// Returns the bits of `self`.
    pub fn bits(&self) -> (r: u32)
        ensures
            r == self@,
    {
        self.bits
    }

    /// Returns the flags of `bits`, dropping the bits that name no flag.
    pub fn from_bits_truncate(bits: u32) -> (r: Self)
        ensures
            r@ == bits & Self::spec_all_bits(),
    {
        BufferPoolAcquireFlags { bits: bits & 0x7 }
    }

    /// Returns the flags of `bits`, or `None` if a bit names no flag.
    pub fn from_bits(bits: u32) -> (r: Option<Self>)
        ensures
            r is Some <==> bits & !Self::spec_all_bits() == 0,
            r matches Some(f) ==> f@ == bits,
    {
        if bits & !0x7 == 0 {
            Some(BufferPoolAcquireFlags { bits })
        } else {
            None
        }
    }

    /// Returns whether all the flags of `other` are set in `self`.
    pub fn contains(&self, other: Self) -> (r: bool)
        ensures
            r == (self@ & other@ == other@),
    {
        self.bits & other.bits == other.bits
    }

    /// Returns whether no flag is set.
    pub fn is_empty(&self) -> (r: bool)
        ensures
            r == (self@ == 0),
    {
        self.bits == 0
    }

    /// Returns the flags set in `self` or in `other`.
    pub fn union(self, other: Self) -> (r: Self)
        ensures
            r@ == self@ | other@,
    {
        BufferPoolAcquireFlags { bits: self.bits | other.bits }
    }

    /// The `key-unit` flags.
    #[allow(non_snake_case)]
    pub fn KEY_UNIT() -> (r: Self)
        ensures
            r@ == 0x1,
    {
        BufferPoolAcquireFlags { bits: 0x1 }
    }

    /// The `dontwait` flags.
    #[allow(non_snake_case)]
    pub fn DONTWAIT() -> (r: Self)
        ensures
            r@ == 0x2,
    {
        BufferPoolAcquireFlags { bits: 0x2 }
    }

    /// The `discont` flags.
    #[allow(non_snake_case)]
    pub fn DISCONT() -> (r: Self)
        ensures
            r@ == 0x4,
    {
        BufferPoolAcquireFlags { bits: 0x4 }
    }

    /// Returns the nicks of the single-bit values set in `self`, in
    /// registration order and each bit once, joined with `+`.
    pub fn serialize(&self) -> (r: String)
        ensures
            r@ == single_bit_serialization(Self::spec_values(), self@).0,
    {
        serialize_single_bit(&Self::values(), self.bits)
    }

    /// Parses a string of nicks joined with `+` (the empty string names no
    /// flag), keeping the bits that name flags of the type. Fails if a nick
    /// is not one of the type's.
    pub fn deserialize(s: &str) -> (r: Result<Self, FlagsParseError>)
        ensures
            r is Err <==> parse_flags_spec(Self::spec_values(), s@) is None,
            r matches Ok(f) ==> f@ == parse_flags_spec(Self::spec_values(), s@)->0
                & Self::spec_all_bits(),
    {
        match parse_flags(&Self::values(), s) {
            Some(b) => Ok(Self::from_bits_truncate(b)),
            None => Err(FlagsParseError),
        }
    }
}

impl core::ops::BitOr for BufferPoolAcquireFlags {
    type Output = BufferPoolAcquireFlags;

    fn bitor(self, rhs: BufferPoolAcquireFlags) -> (r: BufferPoolAcquireFlags) {
        BufferPoolAcquireFlags { bits: self.bits | rhs.bits }
    }
}

impl vstd::std_specs::ops::BitOrSpecImpl for BufferPoolAcquireFlags {
    open spec fn obeys_bitor_spec() -> bool {
        true
    }

    open spec fn bitor_req(self, rhs: BufferPoolAcquireFlags) -> bool {
        true
    }

    open spec fn bitor_spec(self, rhs: BufferPoolAcquireFlags) -> BufferPoolAcquireFlags {
        Self::spec_from_bits(self@ | rhs@)
    }
}

/// The capabilities of a clock.
#[derive(Clone, Copy, Debug, PartialEq, Eq, Structural, Hash)]
pub struct ClockFlags {
    bits: u32,
}

impl View for ClockFlags {
    type V = u32;

    closed spec fn view(&self) -> u32 {
        self.bits
    }
}

impl ClockFlags {
    /// The bits of all the flags of the type.
    pub open spec fn spec_all_bits() -> u32 {
        0x7f0
    }

    /// The values registered for the type, in registration order.
    pub open spec fn spec_values() -> Seq<FlagsValue> {
        seq![
            FlagsValue { value: 0x10, nick: "can-do-single-sync" },
            FlagsValue { value: 0x20, nick: "can-do-single-async" },
            FlagsValue { value: 0x40, nick: "can-do-periodic-sync" },
            FlagsValue { value: 0x80, nick: "can-do-periodic-async" },
            FlagsValue { value: 0x100, nick: "can-set-resolution" },
            FlagsValue { value: 0x200, nick: "can-set-master" },
            FlagsValue { value: 0x400, nick: "needs-startup-sync" }
        ]
    }

    /// The flags with the given bits.
    pub closed spec fn spec_from_bits(bits: u32) -> Self {
        ClockFlags { bits }
    }

    /// The flags built from `bits` hold `bits`.
    pub broadcast proof fn lemma_from_bits(bits: u32)
        ensures
            #[trigger] Self::spec_from_bits(bits)@ == bits,
    {
    }

    /// Flags holding the same bits are equal.
    pub proof fn lemma_view_injective(a: Self, b: Self)
        requires
            a@ == b@,
        ensures
            a == b,
    {
    }

    /// Returns the values registered for the type, in registration order.
    pub fn values() -> (r: Vec<FlagsValue>)
        ensures
            r@ == Self::spec_values(),
    {
        let r = vec![
            FlagsValue { value: 0x10, nick: "can-do-single-sync" },
            FlagsValue { value: 0x20, nick: "can-do-single-async" },
            FlagsValue { value: 0x40, nick: "can-do-periodic-sync" },
            FlagsValue { value: 0x80, nick: "can-do-periodic-async" },
            FlagsValue { value: 0x100, nick: "can-set-resolution" },
            FlagsValue { value: 0x200, nick: "can-set-master" },
            FlagsValue { value: 0x400, nick: "needs-startup-sync" }
        ];
        proof {
            assert(r@ =~= Self::spec_values());
        }
        r
    }

    /// Returns the empty set of flags.
    pub fn empty() -> (r: Self)
        ensures
            r@ == 0,
    {
        ClockFlags { bits: 0 }
    }

    /// Returns the set of all the flags of the type.
    pub fn all() -> (r: Self)
        ensures
            r@ == Self::spec_all_bits(),
    {
        ClockFlags { bits: 0x7f0 }
    }

    /// Returns the bits of `self`.
    pub fn bits(&self) -> (r: u32)
        ensures
            r == self@,
    {
        self.bits
    }

    /// Returns the flags of `bits`, dropping the bits that name no flag.
    pub fn from_bits_truncate(bits: u32) -> (r: Self)
        ensures
            r@ == bits & Self::spec_all_bits(),
    {
        ClockFlags { bits: bits & 0x7f0 }
    }

    /// Returns the flags of `bits`, or `None` if a bit names no flag.
    pub fn from_bits(bits: u32) -> (r: Option<Self>)
        ensures
            r is Some <==> bits & !Self::spec_all_bits() == 0,
            r matches Some(f) ==> f@ == bits,
    {
        if bits & !0x7f0 == 0 {
            Some(ClockFlags { bits })
        } else {
            None
        }
    }

    /// Returns whether all the flags of `other` are set in `self`.
    pub fn contains(&self, other: Self) -> (r: bool)
        ensures
            r == (self@ & other@ == other@),
    {
        self.bits & other.bits == other.bits
    }

    /// Returns whether no flag is set.
    pub fn is_empty(&self) -> (r: bool)
        ensures
            r == (self@ == 0),
    {
        self.bits == 0
    }

    /// Returns the flags set in `self` or in `other`.
    pub fn union(self, other: Self) -> (r: Self)
        ensures
            r@ == self@ | other@,
    {
        ClockFlags { bits: self.bits | other.bits }
    }

    /// The `can-do-single-sync` flags.
    #[allow(non_snake_case)]
    pub fn CAN_DO_SINGLE_SYNC() -> (r: Self)
        ensures
            r@ == 0x10,
    {
        ClockFlags { bits: 0x10 }
    }

    /// The `can-do-single-async` flags.
    #[allow(non_snake_case)]
    pub fn CAN_DO_SINGLE_ASYNC() -> (r: Self)
        ensures
            r@ == 0x20,
    {
        ClockFlags { bits: 0x20 }
    }

    /// The `can-do-periodic-sync` flags.
    #[allow(non_snake_case)]
    pub fn CAN_DO_PERIODIC_SYNC() -> (r: Self)
        ensures
            r@ == 0x40,
    {
        ClockFlags { bits: 0x40 }
    }

    /// The `can-do-periodic-async` flags.
    #[allow(non_snake_case)]
    pub fn CAN_DO_PERIODIC_ASYNC() -> (r: Self)
        ensures
            r@ == 0x80,
    {
        ClockFlags { bits: 0x80 }
    }

    /// The `can-set-resolution` flags.
    #[allow(non_snake_case)]
    pub fn CAN_SET_RESOLUTION() -> (r: Self)
        ensures
            r@ == 0x100,
    {
        ClockFlags { bits: 0x100 }
    }

    /// The `can-set-master` flags.
    #[allow(non_snake_case)]
    pub fn CAN_SET_MASTER() -> (r: Self)
        ensures
            r@ == 0x200,
    {
        ClockFlags { bits: 0x200 }
    }

    /// The `needs-startup-sync` flags.
    #[allow(non_snake_case)]
    pub fn NEEDS_STARTUP_SYNC() -> (r: Self)
        ensures
            r@ == 0x400,
    {
        ClockFlags { bits: 0x400 }
    }

    /// Returns the nicks of the single-bit values set in `self`, in
    /// registration order and each bit once, joined with `+`.
    pub fn serialize(&self) -> (r: String)
        ensures
            r@ == single_bit_serialization(Self::spec_values(), self@).0,
    {
        serialize_single_bit(&Self::values(), self.bits)
    }

    /// Parses a string of nicks joined with `+` (the empty string names no
    /// flag), keeping the bits that name flags of the type. Fails if a nick
    /// is not one of the type's.
    pub fn deserialize(s: &str) -> (r: Result<Self, FlagsParseError>)
        ensures
            r is Err <==> parse_flags_spec(Self::spec_values(), s@) is None,
            r matches Ok(f) ==> f@ == parse_flags_spec(Self::spec_values(), s@)->0
                & Self::spec_all_bits(),
    {
        match parse_flags(&Self::values(), s) {
            Some(b) => Ok(Self::from_bits_truncate(b)),
            None => Err(FlagsParseError),
        }
    }
}

impl core::ops::BitOr for ClockFlags {
    type Output = ClockFlags;

    fn bitor(self, rhs: ClockFlags) -> (r: ClockFlags) {
        ClockFlags { bits: self.bits | rhs.bits }
    }
}

impl vstd::std_specs::ops::BitOrSpecImpl for ClockFlags {
    open spec fn obeys_bitor_spec() -> bool {
        true
    }

    open spec fn bitor_req(self, rhs: ClockFlags) -> bool {
        true
    }

    open spec fn bitor_spec(self, rhs: ClockFlags) -> ClockFlags {
        Self::spec_from_bits(self@ | rhs@)
    }
}

/// The colors and style of debug output: a foreground color in the low three bits, a background color in the next three bits, and bold and underline.
#[derive(Clone, Copy, Debug, PartialEq, Eq, Structural, Hash)]
pub struct DebugColorFlags {
    bits: u32,
}

impl View for DebugColorFlags {
    type V = u32;

    closed spec fn view(&self) -> u32 {
        self.bits
    }
}

impl DebugColorFlags {
    /// The bits of all the flags of the type.
    pub open spec fn spec_all_bits() -> u32 {
        0x377
    }

    /// The values registered for the type, in registration order.
    pub open spec fn spec_values() -> Seq<FlagsValue> {
        seq![
            FlagsValue { value: 0x0, nick: "fg-black" },
            FlagsValue { value: 0x1, nick: "fg-red" },
            FlagsValue { value: 0x2, nick: "fg-green" },
            FlagsValue { value: 0x3, nick: "fg-yellow" },
            FlagsValue { value: 0x4, nick: "fg-blue" },
            FlagsValue { value: 0x5, nick: "fg-magenta" },
            FlagsValue { value: 0x6, nick: "fg-cyan" },
            FlagsValue { value: 0x7, nick: "fg-white" },
            FlagsValue { value: 0x0, nick: "bg-black" },
            FlagsValue { value: 0x10, nick: "bg-red" },
            FlagsValue { value: 0x20, nick: "bg-green" },
            FlagsValue { value: 0x30, nick: "bg-yellow" },
            FlagsValue { value: 0x40, nick: "bg-blue" },
            FlagsValue { value: 0x50, nick: "bg-magenta" },
            FlagsValue { value: 0x60, nick: "bg-cyan" },
            FlagsValue { value: 0x70, nick: "bg-white" },
            FlagsValue { value: 0x100, nick: "bold" },
            FlagsValue { value: 0x200, nick: "underline" }
        ]
    }

    /// The flags with the given bits.
    pub closed spec fn spec_from_bits(bits: u32) -> Self {
        DebugColorFlags { bits }
    }

    /// The flags built from `bits` hold `bits`.
    pub broadcast proof fn lemma_from_bits(bits: u32)
        ensures
            #[trigger] Self::spec_from_bits(bits)@ == bits,
    {
    }

    /// Flags holding the same bits are equal.
    pub proof fn lemma_view_injective(a: Self, b: Self)
        requires
            a@ == b@,
        ensures
            a == b,
    {
    }

    /// Returns the values registered for the type, in registration order.
    pub fn values() -> (r: Vec<FlagsValue>)
        ensures
            r@ == Self::spec_values(),
    {
        let r = vec![
            FlagsValue { value: 0x0, nick: "fg-black" },
            FlagsValue { value: 0x1, nick: "fg-red" },
            FlagsValue { value: 0x2, nick: "fg-green" },
            FlagsValue { value: 0x3, nick: "fg-yellow" },
            FlagsValue { value: 0x4, nick: "fg-blue" },
            FlagsValue { value: 0x5, nick: "fg-magenta" },
            FlagsValue { value: 0x6, nick: "fg-cyan" },
            FlagsValue { value: 0x7, nick: "fg-white" },
            FlagsValue { value: 0x0, nick: "bg-black" },
            FlagsValue { value: 0x10, nick: "bg-red" },
            FlagsValue { value: 0x20, nick: "bg-green" },
            FlagsValue { value: 0x30, nick: "bg-yellow" },
            FlagsValue { value: 0x40, nick: "bg-blue" },
            FlagsValue { value: 0x50, nick: "bg-magenta" },
            FlagsValue { value: 0x60, nick: "bg-cyan" },
            FlagsValue { value: 0x70, nick: "bg-white" },
            FlagsValue { value: 0x100, nick: "bold" },
            FlagsValue { value: 0x200, nick: "underline" }
        ];
        proof {
            assert(r@ =~= Self::spec_values());
        }
        r
    }

    /// Returns the empty set of flags.
    pub fn empty() -> (r: Self)
        ensures
            r@ == 0,
    {
        DebugColorFlags { bits: 0 }
    }

    /// Returns the set of all the flags of the type.
    pub fn all() -> (r: Self)
        ensures
            r@ == Self::spec_all_bits(),
    {
        DebugColorFlags { bits: 0x377 }
    }

    /// Returns the bits of `self`.
    pub fn bits(&self) -> (r: u32)
        ensures
            r == self@,
    {
        self.bits
    }

    /// Returns the flags of `bits`, dropping the bits that name no flag.
    pub fn from_bits_truncate(bits: u32) -> (r: Self)
        ensures
            r@ == bits & Self::spec_all_bits(),
    {
        DebugColorFlags { bits: bits & 0x377 }
    }

    /// Returns the flags of `bits`, or `None` if a bit names no flag.
    pub fn from_bits(bits: u32) -> (r: Option<Self>)
        ensures
            r is Some <==> bits & !Self::spec_all_bits() == 0,
            r matches Some(f) ==> f@ == bits,
    {
        if bits & !0x377 == 0 {
            Some(DebugColorFlags { bits })
        } else {
            None
        }
    }

    /// Returns whether all the flags of `other` are set in `self`.
    pub fn contains(&self, other: Self) -> (r: bool)
        ensures
            r == (self@ & other@ == other@),
    {
        self.bits & other.bits == other.bits
    }

    /// Returns whether no flag is set.
    pub fn is_empty(&self) -> (r: bool)
        ensures
            r == (self@ == 0),
    {
        self.bits == 0
    }

    /// Returns the flags set in `self` or in `other`.
    pub fn union(self, other: Self) -> (r: Self)
        ensures
            r@ == self@ | other@,
    {
        DebugColorFlags { bits: self.bits | other.bits }
    }

    /// The `fg-black` flags.
    #[allow(non_snake_case)]
    pub fn FG_BLACK() -> (r: Self)
        ensures
            r@ == 0x0,
    {
        DebugColorFlags { bits: 0x0 }
    }

    /// The `fg-red` flags.
    #[allow(non_snake_case)]
    pub fn FG_RED() -> (r: Self)
        ensures
            r@ == 0x1,
    {
        DebugColorFlags { bits: 0x1 }
    }

    /// The `fg-green` flags.
    #[allow(non_snake_case)]
    pub fn FG_GREEN() -> (r: Self)
        ensures
            r@ == 0x2,
    {
        DebugColorFlags { bits: 0x2 }
    }

    /// The `fg-yellow` flags.
    #[allow(non_snake_case)]
    pub fn FG_YELLOW() -> (r: Self)
        ensures
            r@ == 0x3,
    {
        DebugColorFlags { bits: 0x3 }
    }

    /// The `fg-blue` flags.
    #[allow(non_snake_case)]
    pub fn FG_BLUE() -> (r: Self)
        ensures
            r@ == 0x4,
    {
        DebugColorFlags { bits: 0x4 }
    }

    /// The `fg-magenta` flags.
    #[allow(non_snake_case)]
    pub fn FG_MAGENTA() -> (r: Self)
        ensures
            r@ == 0x5,
    {
        DebugColorFlags { bits: 0x5 }
    }

    /// The `fg-cyan` flags.
    #[allow(non_snake_case)]
    pub fn FG_CYAN() -> (r: Self)
        ensures
            r@ == 0x6,
    {
        DebugColorFlags { bits: 0x6 }
    }

    /// The `fg-white` flags.
    #[allow(non_snake_case)]
    pub fn FG_WHITE() -> (r: Self)
        ensures
            r@ == 0x7,
    {
        DebugColorFlags { bits: 0x7 }
    }

    /// The `bg-black` flags.
    #[allow(non_snake_case)]
    pub fn BG_BLACK() -> (r: Self)
        ensures
            r@ == 0x0,
    {
        DebugColorFlags { bits: 0x0 }
    }

    /// The `bg-red` flags.
    #[allow(non_snake_case)]
    pub fn BG_RED() -> (r: Self)
        ensures
            r@ == 0x10,
    {
        DebugColorFlags { bits: 0x10 }
    }

    /// The `bg-green` flags.
    #[allow(non_snake_case)]
    pub fn BG_GREEN() -> (r: Self)
        ensures
            r@ == 0x20,
    {
        DebugColorFlags { bits: 0x20 }
    }

    /// The `bg-yellow` flags.
    #[allow(non_snake_case)]
    pub fn BG_YELLOW() -> (r: Self)
        ensures
            r@ == 0x30,
    {
        DebugColorFlags { bits: 0x30 }
    }

    /// The `bg-blue` flags.
    #[allow(non_snake_case)]
    pub fn BG_BLUE() -> (r: Self)
        ensures
            r@ == 0x40,
    {
        DebugColorFlags { bits: 0x40 }
    }

    /// The `bg-magenta` flags.
    #[allow(non_snake_case)]
    pub fn BG_MAGENTA() -> (r: Self)
        ensures
            r@ == 0x50,
    {
        DebugColorFlags { bits: 0x50 }
    }

    /// The `bg-cyan` flags.
    #[allow(non_snake_case)]
    pub fn BG_CYAN() -> (r: Self)
        ensures
            r@ == 0x60,
    {
        DebugColorFlags { bits: 0x60 }
    }

    /// The `bg-white` flags.
    #[allow(non_snake_case)]
    pub fn BG_WHITE() -> (r: Self)
        ensures
            r@ == 0x70,
    {
        DebugColorFlags { bits: 0x70 }
    }

    /// The `bold` flags.
    #[allow(non_snake_case)]
    pub fn BOLD() -> (r: Self)
        ensures
            r@ == 0x100,
    {
        DebugColorFlags { bits: 0x100 }
    }

    /// The `underline` flags.
    #[allow(non_snake_case)]
    pub fn UNDERLINE() -> (r: Self)
        ensures
            r@ == 0x200,
    {
        DebugColorFlags { bits: 0x200 }
    }

    /// Returns the foreground color, the background color, then `bold` and
    /// `underline` when set, joined with `+`.
    pub fn serialize(&self) -> (r: String)
        ensures
            r@ == debug_color_serialization(self@),
    {
        serialize_debug_color(self.bits)
    }

    /// Parses a string of nicks joined with `+` (the empty string names no
    /// flag), keeping the bits that name flags of the type. Fails if a nick
    /// is not one of the type's.
    pub fn deserialize(s: &str) -> (r: Result<Self, FlagsParseError>)
        ensures
            r is Err <==> parse_flags_spec(Self::spec_values(), s@) is None,
            r matches Ok(f) ==> f@ == parse_flags_spec(Self::spec_values(), s@)->0
                & Self::spec_all_bits(),
    {
        match parse_flags(&Self::values(), s) {
            Some(b) => Ok(Self::from_bits_truncate(b)),
            None => Err(FlagsParseError),
        }
    }
}

impl core::ops::BitOr for DebugColorFlags {
    type Output = DebugColorFlags;

    fn bitor(self, rhs: DebugColorFlags) -> (r: DebugColorFlags) {
        DebugColorFlags { bits: self.bits | rhs.bits }
    }
}

impl vstd::std_specs::ops::BitOrSpecImpl for DebugColorFlags {
    open spec fn obeys_bitor_spec() -> bool {
        true
    }

    open spec fn bitor_req(self, rhs: DebugColorFlags) -> bool {
        true
    }

    open spec fn bitor_spec(self, rhs: DebugColorFlags) -> DebugColorFlags {
        Self::spec_from_bits(self@ | rhs@)
    }
}

/// The details shown in a pipeline graph.
#[derive(Clone, Copy, Debug, PartialEq, Eq, Structural, Hash)]
pub struct DebugGraphDetails {
    bits: u32,
}

impl View for DebugGraphDetails {
    type V = u32;

    closed spec fn view(&self) -> u32 {
        self.bits
    }
}

impl DebugGraphDetails {
    /// The bits of all the flags of the type.
    pub open spec fn spec_all_bits() -> u32 {
        0xffffffff
    }

    /// The values registered for the type, in registration order.
    pub open spec fn spec_values() -> Seq<FlagsValue> {
        seq![
            FlagsValue { value: 0x1, nick: "media-type" },
            FlagsValue { value: 0x2, nick: "caps-details" },
            FlagsValue { value: 0x4, nick: "non-default-params" },
            FlagsValue { value: 0x8, nick: "states" },
            FlagsValue { value: 0x10, nick: "full-params" },
            FlagsValue { value: 0xf, nick: "all" },
            FlagsValue { value: 0xffffffff, nick: "verbose" }
        ]
    }

    /// The flags with the given bits.
    pub closed spec fn spec_from_bits(bits: u32) -> Self {
        DebugGraphDetails { bits }
    }

    /// The flags built from `bits` hold `bits`.
    pub broadcast proof fn lemma_from_bits(bits: u32)
        ensures
            #[trigger] Self::spec_from_bits(bits)@ == bits,
    {
    }

    /// Flags holding the same bits are equal.
    pub proof fn lemma_view_injective(a: Self, b: Self)
        requires
            a@ == b@,
        ensures
            a == b,
    {
    }

    /// Returns the values registered for the type, in registration order.
    pub fn values() -> (r: Vec<FlagsValue>)
        ensures
            r@ == Self::spec_values(),
    {
        let r = vec![
            FlagsValue { value: 0x1, nick: "media-type" },
            FlagsValue { value: 0x2, nick: "caps-details" },
            FlagsValue { value: 0x4, nick: "non-default-params" },
            FlagsValue { value: 0x8, nick: "states" },
            FlagsValue { value: 0x10, nick: "full-params" },
            FlagsValue { value: 0xf, nick: "all" },
            FlagsValue { value: 0xffffffff, nick: "verbose" }
        ];
        proof {
            assert(r@ =~= Self::spec_values());
        }
        r
    }

    /// Returns the empty set of flags.
    pub fn empty() -> (r: Self)
        ensures
            r@ == 0,
    {
        DebugGraphDetails { bits: 0 }
    }

    /// Returns the set of all the flags of the type.
    pub fn all() -> (r: Self)
        ensures
            r@ == Self::spec_all_bits(),
    {
        DebugGraphDetails { bits: 0xffffffff }
    }

    /// Returns the bits of `self`.
    pub fn bits(&self) -> (r: u32)
        ensures
            r == self@,
    {
        self.bits
    }

    /// Returns the flags of `bits`, dropping the bits that name no flag.
    pub fn from_bits_truncate(bits: u32) -> (r: Self)
        ensures
            r@ == bits & Self::spec_all_bits(),
    {
        DebugGraphDetails { bits: bits & 0xffffffff }
    }

    /// Returns the flags of `bits`, or `None` if a bit names no flag.
    pub fn from_bits(bits: u32) -> (r: Option<Self>)
        ensures
            r is Some <==> bits & !Self::spec_all_bits() == 0,
            r matches Some(f) ==> f@ == bits,
    {
        if bits & !0xffffffff == 0 {
            Some(DebugGraphDetails { bits })
        } else {
            None
        }
    }

    /// Returns whether all the flags of `other` are set in `self`.
    pub fn contains(&self, other: Self) -> (r: bool)
        ensures
            r == (self@ & other@ == other@),
    {
        self.bits & other.bits == other.bits
    }

    /// Returns whether no flag is set.
    pub fn is_empty(&self) -> (r: bool)
        ensures
            r == (self@ == 0),
    {
        self.bits == 0
    }

    /// Returns the flags set in `self` or in `other`.
    pub fn union(self, other: Self) -> (r: Self)
        ensures
            r@ == self@ | other@,
    {
        DebugGraphDetails { bits: self.bits | other.bits }
    }

    /// The `media-type` flags.
    #[allow(non_snake_case)]
    pub fn MEDIA_TYPE() -> (r: Self)
        ensures
            r@ == 0x1,
    {
        DebugGraphDetails { bits: 0x1 }
    }

    /// The `caps-details` flags.
    #[allow(non_snake_case)]
    pub fn CAPS_DETAILS() -> (r: Self)
        ensures
            r@ == 0x2,
    {
        DebugGraphDetails { bits: 0x2 }
    }

    /// The `non-default-params` flags.
    #[allow(non_snake_case)]
    pub fn NON_DEFAULT_PARAMS() -> (r: Self)
        ensures
            r@ == 0x4,
    {
        DebugGraphDetails { bits: 0x4 }
    }

    /// The `states` flags.
    #[allow(non_snake_case)]
    pub fn STATES() -> (r: Self)
        ensures
            r@ == 0x8,
    {
        DebugGraphDetails { bits: 0x8 }
    }

    /// The `full-params` flags.
    #[allow(non_snake_case)]
    pub fn FULL_PARAMS() -> (r: Self)
        ensures
            r@ == 0x10,
    {
        DebugGraphDetails { bits: 0x10 }
    }

    /// The `all` flags.
    #[allow(non_snake_case)]
    pub fn ALL() -> (r: Self)
        ensures
            r@ == 0xf,
    {
        DebugGraphDetails { bits: 0xf }
    }

    /// The `verbose` flags.
    #[allow(non_snake_case)]
    pub fn VERBOSE() -> (r: Self)
        ensures
            r@ == 0xffffffff,
    {
        DebugGraphDetails { bits: 0xffffffff }
    }

    /// Returns the nicks of the values covering `self`, taken greedily from
    /// the values with the most bits set, joined with `+`.
    pub fn serialize(&self) -> (r: String)
        ensures
            r@ == by_ones_serialization(Self::spec_values(), self@),
    {
        serialize_by_ones_decreasing(&Self::values(), self.bits)
    }

    /// Parses a string of nicks joined with `+` (the empty string names no
    /// flag), keeping the bits that name flags of the type. Fails if a nick
    /// is not one of the type's.
    pub fn deserialize(s: &str) -> (r: Result<Self, FlagsParseError>)
        ensures
            r is Err <==> parse_flags_spec(Self::spec_values(), s@) is None,
            r matches Ok(f) ==> f@ == parse_flags_spec(Self::spec_values(), s@)->0
                & Self::spec_all_bits(),
    {
        match parse_flags(&Self::values(), s) {
            Some(b) => Ok(Self::from_bits_truncate(b)),
            None => Err(FlagsParseError),
        }
    }
}

impl core::ops::BitOr for DebugGraphDetails {
    type Output = DebugGraphDetails;

    fn bitor(self, rhs: DebugGraphDetails) -> (r: DebugGraphDetails) {
        DebugGraphDetails { bits: self.bits | rhs.bits }
    }
}

impl vstd::std_specs::ops::BitOrSpecImpl for DebugGraphDetails {
    open spec fn obeys_bitor_spec() -> bool {
        true
    }

    open spec fn bitor_req(self, rhs: DebugGraphDetails) -> bool {
        true
    }

    open spec fn bitor_spec(self, rhs: DebugGraphDetails) -> DebugGraphDetails {
        Self::spec_from_bits(self@ | rhs@)
    }
}

/// The flags of an element.
#[derive(Clone, Copy, Debug, PartialEq, Eq, Structural, Hash)]
pub struct ElementFlags {
    bits: u32,
}

impl View for ElementFlags {
    type V = u32;

    closed spec fn view(&self) -> u32 {
        self.bits
    }
}

impl ElementFlags {
    /// The bits of all the flags of the type.
    pub open spec fn spec_all_bits() -> u32 {
        0x3f0
    }

    /// The values registered for the type, in registration order.
    pub open spec fn spec_values() -> Seq<FlagsValue> {
        seq![
            FlagsValue { value: 0x10, nick: "locked-state" },
            FlagsValue { value: 0x20, nick: "sink" },
            FlagsValue { value: 0x40, nick: "source" },
            FlagsValue { value: 0x80, nick: "provide-clock" },
            FlagsValue { value: 0x100, nick: "require-clock" },
            FlagsValue { value: 0x200, nick: "indexable" }
        ]
    }

    /// The flags with the given bits.
    pub closed spec fn spec_from_bits(bits: u32) -> Self {
        ElementFlags { bits }
    }

    /// The flags built from `bits` hold `bits`.
    pub broadcast proof fn lemma_from_bits(bits: u32)
        ensures
            #[trigger] Self::spec_from_bits(bits)@ == bits,
    {
    }

    /// Flags holding the same bits are equal.
    pub proof fn lemma_view_injective(a: Self, b: Self)
        requires
            a@ == b@,
        ensures
            a == b,
    {
    }

    /// Returns the values registered for the type, in registration order.
    pub fn values() -> (r: Vec<FlagsValue>)
        ensures
            r@ == Self::spec_values(),
    {
        let r = vec![
            FlagsValue { value: 0x10, nick: "locked-state" },
            FlagsValue { value: 0x20, nick: "sink" },
            FlagsValue { value: 0x40, nick: "source" },
            FlagsValue { value: 0x80, nick: "provide-clock" },
            FlagsValue { value: 0x100, nick: "require-clock" },
            FlagsValue { value: 0x200, nick: "indexable" }
        ];
        proof {
            assert(r@ =~= Self::spec_values());
        }
        r
    }

    /// Returns the empty set of flags.
    pub fn empty() -> (r: Self)
        ensures
            r@ == 0,
    {
        ElementFlags { bits: 0 }
    }

    /// Returns the set of all the flags of the type.
    pub fn all() -> (r: Self)
        ensures
            r@ == Self::spec_all_bits(),
    {
        ElementFlags { bits: 0x3f0 }
    }

    /// Returns the bits of `self`.
    pub fn bits(&self) -> (r: u32)
        ensures
            r == self@,
    {
        self.bits
    }

    /// Returns the flags of `bits`, dropping the bits that name no flag.
    pub fn from_bits_truncate(bits: u32) -> (r: Self)
        ensures
            r@ == bits & Self::spec_all_bits(),
    {
        ElementFlags { bits: bits & 0x3f0 }
    }

    /// Returns the flags of `bits`, or `None` if a bit names no flag.
    pub fn from_bits(bits: u32) -> (r: Option<Self>)
        ensures
            r is Some <==> bits & !Self::spec_all_bits() == 0,
            r matches Some(f) ==> f@ == bits,
    {
        if bits & !0x3f0 == 0 {
            Some(ElementFlags { bits })
        } else {
            None
        }
    }

    /// Returns whether all the flags of `other` are set in `self`.
    pub fn contains(&self, other: Self) -> (r: bool)
        ensures
            r == (self@ & other@ == other@),
    {
        self.bits & other.bits == other.bits
    }

    /// Returns whether no flag is set.
    pub fn is_empty(&self) -> (r: bool)
        ensures
            r == (self@ == 0),
    {
        self.bits == 0
    }

    /// Returns the flags set in `self` or in `other`.
    pub fn union(self, other: Self) -> (r: Self)
        ensures
            r@ == self@ | other@,
    {
        ElementFlags { bits: self.bits | other.bits }
    }

    /// The `locked-state` flags.
    #[allow(non_snake_case)]
    pub fn LOCKED_STATE() -> (r: Self)
        ensures
            r@ == 0x10,
    {
        ElementFlags { bits: 0x10 }
    }

    /// The `sink` flags.
    #[allow(non_snake_case)]
    pub fn SINK() -> (r: Self)
        ensures
            r@ == 0x20,
    {
        ElementFlags { bits: 0x20 }
    }

    /// The `source` flags.
    #[allow(non_snake_case)]
    pub fn SOURCE() -> (r: Self)
        ensures
            r@ == 0x40,
    {
        ElementFlags { bits: 0x40 }
    }

    /// The `provide-clock` flags.
    #[allow(non_snake_case)]
    pub fn PROVIDE_CLOCK() -> (r: Self)
        ensures
            r@ == 0x80,
    {
        ElementFlags { bits: 0x80 }
    }

    /// The `require-clock` flags.
    #[allow(non_snake_case)]
    pub fn REQUIRE_CLOCK() -> (r: Self)
        ensures
            r@ == 0x100,
    {
        ElementFlags { bits: 0x100 }
    }

    /// The `indexable` flags.
    #[allow(non_snake_case)]
    pub fn INDEXABLE() -> (r: Self)
        ensures
            r@ == 0x200,
    {
        ElementFlags { bits: 0x200 }
    }

    /// Returns the nicks of the single-bit values set in `self`, in
    /// registration order and each bit once, joined with `+`.
    pub fn serialize(&self) -> (r: String)
        ensures
            r@ == single_bit_serialization(Self::spec_values(), self@).0,
    {
        serialize_single_bit(&Self::values(), self.bits)
    }

    /// Parses a string of nicks joined with `+` (the empty string names no
    /// flag), keeping the bits that name flags of the type. Fails if a nick
    /// is not one of the type's.
    pub fn deserialize(s: &str) -> (r: Result<Self, FlagsParseError>)
        ensures
            r is Err <==> parse_flags_spec(Self::spec_values(), s@) is None,
            r matches Ok(f) ==> f@ == parse_flags_spec(Self::spec_values(), s@)->0
                & Self::spec_all_bits(),
    {
        match parse_flags(&Self::values(), s) {
            Some(b) => Ok(Self::from_bits_truncate(b)),
            None => Err(FlagsParseError),
        }
    }
}

impl core::ops::BitOr for ElementFlags {
    type Output = ElementFlags;

    fn bitor(self, rhs: ElementFlags) -> (r: ElementFlags) {
        ElementFlags { bits: self.bits | rhs.bits }
    }
}

impl vstd::std_specs::ops::BitOrSpecImpl for ElementFlags {
    open spec fn obeys_bitor_spec() -> bool {
        true
    }

    open spec fn bitor_req(self, rhs: ElementFlags) -> bool {
        true
    }

    open spec fn bitor_spec(self, rhs: ElementFlags) -> ElementFlags {
        Self::spec_from_bits(self@ | rhs@)
    }
}

/// The properties of an event type.
#[derive(Clone, Copy, Debug, PartialEq, Eq, Structural, Hash)]
pub struct EventTypeFlags {
    bits: u32,
}

impl View for EventTypeFlags {
    type V = u32;

    closed spec fn view(&self) -> u32 {
        self.bits
    }
}

impl EventTypeFlags {
    /// The bits of all the flags of the type.
    pub open spec fn spec_all_bits() -> u32 {
        0x1f
    }

    /// The values registered for the type, in registration order.
    pub open spec fn spec_values() -> Seq<FlagsValue> {
        seq![
            FlagsValue { value: 0x1, nick: "upstream" },
            FlagsValue { value: 0x2, nick: "downstream" },
            FlagsValue { value: 0x4, nick: "serialized" },
            FlagsValue { value: 0x8, nick: "sticky" },
            FlagsValue { value: 0x10, nick: "sticky-multi" }
        ]
    }

    /// The flags with the given bits.
    pub closed spec fn spec_from_bits(bits: u32) -> Self {
        EventTypeFlags { bits }
    }

    /// The flags built from `bits` hold `bits`.
    pub broadcast proof fn lemma_from_bits(bits: u32)
        ensures
            #[trigger] Self::spec_from_bits(bits)@ == bits,
    {
    }

    /// Flags holding the same bits are equal.
    pub proof fn lemma_view_injective(a: Self, b: Self)
        requires
            a@ == b@,
        ensures
            a == b,
    {
    }

    /// Returns the values registered for the type, in registration order.
    pub fn values() -> (r: Vec<FlagsValue>)
        ensures
            r@ == Self::spec_values(),
    {
        let r = vec![
            FlagsValue { value: 0x1, nick: "upstream" },
            FlagsValue { value: 0x2, nick: "downstream" },
            FlagsValue { value: 0x4, nick: "serialized" },
            FlagsValue { value: 0x8, nick: "sticky" },
            FlagsValue { value: 0x10, nick: "sticky-multi" }
        ];
        proof {
            assert(r@ =~= Self::spec_values());
        }
        r
    }

    /// Returns the empty set of flags.
    pub fn empty() -> (r: Self)
        ensures
            r@ == 0,
    {
        EventTypeFlags { bits: 0 }
    }

    /// Returns the set of all the flags of the type.
    pub fn all() -> (r: Self)
        ensures
            r@ == Self::spec_all_bits(),
    {
        EventTypeFlags { bits: 0x1f }
    }

    /// Returns the bits of `self`.
    pub fn bits(&self) -> (r: u32)
        ensures
            r == self@,
    {
        self.bits
    }

    /// Returns the flags of `bits`, dropping the bits that name no flag.
    pub fn from_bits_truncate(bits: u32) -> (r: Self)
        ensures
            r@ == bits & Self::spec_all_bits(),
    {
        EventTypeFlags { bits: bits & 0x1f }
    }

    /// Returns the flags of `bits`, or `None` if a bit names no flag.
    pub fn from_bits(bits: u32) -> (r: Option<Self>)
        ensures
            r is Some <==> bits & !Self::spec_all_bits() == 0,
            r matches Some(f) ==> f@ == bits,
    {
        if bits & !0x1f == 0 {
            Some(EventTypeFlags { bits })
        } else {
            None
        }
    }

    /// Returns whether all the flags of `other` are set in `self`.
    pub fn contains(&self, other: Self) -> (r: bool)
        ensures
            r == (self@ & other@ == other@),
    {
        self.bits & other.bits == other.bits
    }

    /// Returns whether no flag is set.
    pub fn is_empty(&self) -> (r: bool)
        ensures
            r == (self@ == 0),
    {
        self.bits == 0
    }

    /// Returns the flags set in `self` or in `other`.
    pub fn union(self, other: Self) -> (r: Self)
        ensures
            r@ == self@ | other@,
    {
        EventTypeFlags { bits: self.bits | other.bits }
    }

    /// The `upstream` flags.
    #[allow(non_snake_case)]
    pub fn UPSTREAM() -> (r: Self)
        ensures
            r@ == 0x1,
    {
        EventTypeFlags { bits: 0x1 }
    }

    /// The `downstream` flags.
    #[allow(non_snake_case)]
    pub fn DOWNSTREAM() -> (r: Self)
        ensures
            r@ == 0x2,
    {
        EventTypeFlags { bits: 0x2 }
    }

    /// The `serialized` flags.
    #[allow(non_snake_case)]
    pub fn SERIALIZED() -> (r: Self)
        ensures
            r@ == 0x4,
    {
        EventTypeFlags { bits: 0x4 }
    }

    /// The `sticky` flags.
    #[allow(non_snake_case)]
    pub fn STICKY() -> (r: Self)
        ensures
            r@ == 0x8,
    {
        EventTypeFlags { bits: 0x8 }
    }

    /// The `sticky-multi` flags.
    #[allow(non_snake_case)]
    pub fn STICKY_MULTI() -> (r: Self)
        ensures
            r@ == 0x10,
    {
        EventTypeFlags { bits: 0x10 }
    }

    /// Returns the nicks of the single-bit values set in `self`, in
    /// registration order and each bit once, joined with `+`.
    pub fn serialize(&self) -> (r: String)
        ensures
            r@ == single_bit_serialization(Self::spec_values(), self@).0,
    {
        serialize_single_bit(&Self::values(), self.bits)
    }

    /// Parses a string of nicks joined with `+` (the empty string names no
    /// flag), keeping the bits that name flags of the type. Fails if a nick
    /// is not one of the type's.
    pub fn deserialize(s: &str) -> (r: Result<Self, FlagsParseError>)
        ensures
            r is Err <==> parse_flags_spec(Self::spec_values(), s@) is None,
            r matches Ok(f) ==> f@ == parse_flags_spec(Self::spec_values(), s@)->0
                & Self::spec_all_bits(),
    {
        match parse_flags(&Self::values(), s) {
            Some(b) => Ok(Self::from_bits_truncate(b)),
            None => Err(FlagsParseError),
        }
    }
}

impl core::ops::BitOr for EventTypeFlags {
    type Output = EventTypeFlags;

    fn bitor(self, rhs: EventTypeFlags) -> (r: EventTypeFlags) {
        EventTypeFlags { bits: self.bits | rhs.bits }
    }
}

impl vstd::std_specs::ops::BitOrSpecImpl for EventTypeFlags {
    open spec fn obeys_bitor_spec() -> bool {
        true
    }

    open spec fn bitor_req(self, rhs: EventTypeFlags) -> bool {
        true
    }

    open spec fn bitor_spec(self, rhs: EventTypeFlags) -> EventTypeFlags {
        Self::spec_from_bits(self@ | rhs@)
    }
}

/// The flags of a gap event.
#[derive(Clone, Copy, Debug, PartialEq, Eq, Structural, Hash)]
pub struct GapFlags {
    bits: u32,
}

impl View for GapFlags {
    type V = u32;

    closed spec fn view(&self) -> u32 {
        self.bits
    }
}

impl GapFlags {
    /// The bits of all the flags of the type.
    pub open spec fn spec_all_bits() -> u32 {
        0x1
    }

    /// The values registered for the type, in registration order.
    pub open spec fn spec_values() -> Seq<FlagsValue> {
        seq![
            FlagsValue { value: 0x1, nick: "data" }
        ]
    }

    /// The flags with the given bits.
    pub closed spec fn spec_from_bits(bits: u32) -> Self {
        GapFlags { bits }
    }

    /// The flags built from `bits` hold `bits`.
    pub broadcast proof fn lemma_from_bits(bits: u32)
        ensures
            #[trigger] Self::spec_from_bits(bits)@ == bits,
    {
    }

    /// Flags holding the same bits are equal.
    pub proof fn lemma_view_injective(a: Self, b: Self)
        requires
            a@ == b@,
        ensures
            a == b,
    {
    }

    /// Returns the values registered for the type, in registration order.
    pub fn values() -> (r: Vec<FlagsValue>)
        ensures
            r@ == Self::spec_values(),
    {
        let r = vec![
            FlagsValue { value: 0x1, nick: "data" }
        ];
        proof {
            assert(r@ =~= Self::spec_values());
        }
        r
    }

    /// Returns the empty set of flags.
    pub fn empty() -> (r: Self)
        ensures
            r@ == 0,
    {
        GapFlags { bits: 0 }
    }

    /// Returns the set of all the flags of the type.
    pub fn all() -> (r: Self)
        ensures
            r@ == Self::spec_all_bits(),
    {
        GapFlags { bits: 0x1 }
    }

    /// Returns the bits of `self`.
    pub fn bits(&self) -> (r: u32)
        ensures
            r == self@,
    {
        self.bits
    }

    /// Returns the flags of `bits`, dropping the bits that name no flag.
    pub fn from_bits_truncate(bits: u32) -> (r: Self)
        ensures
            r@ == bits & Self::spec_all_bits(),
    {
        GapFlags { bits: bits & 0x1 }
    }

    /// Returns the flags of `bits`, or `None` if a bit names no flag.
    pub fn from_bits(bits: u32) -> (r: Option<Self>)
        ensures
            r is Some <==> bits & !Self::spec_all_bits() == 0,
            r matches Some(f) ==> f@ == bits,
    {
        if bits & !0x1 == 0 {
            Some(GapFlags { bits })
        } else {
            None
        }
    }

    /// Returns whether all the flags of `other` are set in `self`.
    pub fn contains(&self, other: Self) -> (r: bool)
        ensures
            r == (self@ & other@ == other@),
    {
        self.bits & other.bits == other.bits
    }

    /// Returns whether no flag is set.
    pub fn is_empty(&self) -> (r: bool)
        ensures
            r == (self@ == 0),
    {
        self.bits == 0
    }

    /// Returns the flags set in `self` or in `other`.
    pub fn union(self, other: Self) -> (r: Self)
        ensures
            r@ == self@ | other@,
    {
        GapFlags { bits: self.bits | other.bits }
    }

    /// The `data` flags.
    #[allow(non_snake_case)]
    pub fn DATA() -> (r: Self)
        ensures
            r@ == 0x1,
    {
        GapFlags { bits: 0x1 }
    }

    /// Returns the nicks of the single-bit values set in `self`, in
    /// registration order and each bit once, joined with `+`.
    pub fn serialize(&self) -> (r: String)
        ensures
            r@ == single_bit_serialization(Self::spec_values(), self@).0,
    {
        serialize_single_bit(&Self::values(), self.bits)
    }

    /// Parses a string of nicks joined with `+` (the empty string names no
    /// flag), keeping the bits that name flags of the type. Fails if a nick
    /// is not one of the type's.
    pub fn deserialize(s: &str) -> (r: Result<Self, FlagsParseError>)
        ensures
            r is Err <==> parse_flags_spec(Self::spec_values(), s@) is None,
            r matches Ok(f) ==> f@ == parse_flags_spec(Self::spec_values(), s@)->0
                & Self::spec_all_bits(),
    {
        match parse_flags(&Self::values(), s) {
            Some(b) => Ok(Self::from_bits_truncate(b)),
            None => Err(FlagsParseError),
        }
    }
}

impl core::ops::BitOr for GapFlags {
    type Output = GapFlags;

    fn bitor(self, rhs: GapFlags) -> (r: GapFlags) {
        GapFlags { bits: self.bits | rhs.bits }
    }
}

impl vstd::std_specs::ops::BitOrSpecImpl for GapFlags {
    open spec fn obeys_bitor_spec() -> bool {
        true
    }

    open spec fn bitor_req(self, rhs: GapFlags) -> bool {
        true
    }

    open spec fn bitor_spec(self, rhs: GapFlags) -> GapFlags {
        Self::spec_from_bits(self@ | rhs@)
    }
}

/// The flags of a memory block.
#[derive(Clone, Copy, Debug, PartialEq, Eq, Structural, Hash)]
pub struct MemoryFlags {
    bits: u32,
}

impl View for MemoryFlags {
    type V = u32;

    closed spec fn view(&self) -> u32 {
        self.bits
    }
}

impl MemoryFlags {
    /// The bits of all the flags of the type.
    pub open spec fn spec_all_bits() -> u32 {
        0x1f2
    }

    /// The values registered for the type, in registration order.
    pub open spec fn spec_values() -> Seq<FlagsValue> {
        seq![
            FlagsValue { value: 0x2, nick: "readonly" },
            FlagsValue { value: 0x10, nick: "no-share" },
            FlagsValue { value: 0x20, nick: "zero-prefixed" },
            FlagsValue { value: 0x40, nick: "zero-padded" },
            FlagsValue { value: 0x80, nick: "physically-contiguous" },
            FlagsValue { value: 0x100, nick: "not-mappable" }
        ]
    }

    /// The flags with the given bits.
    pub closed spec fn spec_from_bits(bits: u32) -> Self {
        MemoryFlags { bits }
    }

    /// The flags built from `bits` hold `bits`.
    pub broadcast proof fn lemma_from_bits(bits: u32)
        ensures
            #[trigger] Self::spec_from_bits(bits)@ == bits,
    {
    }

    /// Flags holding the same bits are equal.
    pub proof fn lemma_view_injective(a: Self, b: Self)
        requires
            a@ == b@,
        ensures
            a == b,
    {
    }

    /// Returns the values registered for the type, in registration order.
    pub fn values() -> (r: Vec<FlagsValue>)
        ensures
            r@ == Self::spec_values(),
    {
        let r = vec![
            FlagsValue { value: 0x2, nick: "readonly" },
            FlagsValue { value: 0x10, nick: "no-share" },
            FlagsValue { value: 0x20, nick: "zero-prefixed" },
            FlagsValue { value: 0x40, nick: "zero-padded" },
            FlagsValue { value: 0x80, nick: "physically-contiguous" },
            FlagsValue { value: 0x100, nick: "not-mappable" }
        ];
        proof {
            assert(r@ =~= Self::spec_values());
        }
        r
    }

    /// Returns the empty set of flags.
    pub fn empty() -> (r: Self)
        ensures
            r@ == 0,
    {
        MemoryFlags { bits: 0 }
    }

    /// Returns the set of all the flags of the type.
    pub fn all() -> (r: Self)
        ensures
            r@ == Self::spec_all_bits(),
    {
        MemoryFlags { bits: 0x1f2 }
    }

    /// Returns the bits of `self`.
    pub fn bits(&self) -> (r: u32)
        ensures
            r == self@,
    {
        self.bits
    }

    /// Returns the flags of `bits`, dropping the bits that name no flag.
    pub fn from_bits_truncate(bits: u32) -> (r: Self)
        ensures
            r@ == bits & Self::spec_all_bits(),
    {
        MemoryFlags { bits: bits & 0x1f2 }
    }

    /// Returns the flags of `bits`, or `None` if a bit names no flag.
    pub fn from_bits(bits: u32) -> (r: Option<Self>)
        ensures
            r is Some <==> bits & !Self::spec_all_bits() == 0,
            r matches Some(f) ==> f@ == bits,
    {
        if bits & !0x1f2 == 0 {
            Some(MemoryFlags { bits })
        } else {
            None
        }
    }

    /// Returns whether all the flags of `other` are set in `self`.
    pub fn contains(&self, other: Self) -> (r: bool)
        ensures
            r == (self@ & other@ == other@),
    {
        self.bits & other.bits == other.bits
    }

    /// Returns whether no flag is set.
    pub fn is_empty(&self) -> (r: bool)
        ensures
            r == (self@ == 0),
    {
        self.bits == 0
    }

    /// Returns the flags set in `self` or in `other`.
    pub fn union(self, other: Self) -> (r: Self)
        ensures
            r@ == self@ | other@,
    {
        MemoryFlags { bits: self.bits | other.bits }
    }

    /// The `readonly` flags.
    #[allow(non_snake_case)]
    pub fn READONLY() -> (r: Self)
        ensures
            r@ == 0x2,
    {
        MemoryFlags { bits: 0x2 }
    }

    /// The `no-share` flags.
    #[allow(non_snake_case)]
    pub fn NO_SHARE() -> (r: Self)
        ensures
            r@ == 0x10,
    {
        MemoryFlags { bits: 0x10 }
    }

    /// The `zero-prefixed` flags.
    #[allow(non_snake_case)]
    pub fn ZERO_PREFIXED() -> (r: Self)
        ensures
            r@ == 0x20,
    {
        MemoryFlags { bits: 0x20 }
    }

    /// The `zero-padded` flags.
    #[allow(non_snake_case)]
    pub fn ZERO_PADDED() -> (r: Self)
        ensures
            r@ == 0x40,
    {
        MemoryFlags { bits: 0x40 }
    }

    /// The `physically-contiguous` flags.
    #[allow(non_snake_case)]
    pub fn PHYSICALLY_CONTIGUOUS() -> (r: Self)
        ensures
            r@ == 0x80,
    {
        MemoryFlags { bits: 0x80 }
    }

    /// The `not-mappable` flags.
    #[allow(non_snake_case)]
    pub fn NOT_MAPPABLE() -> (r: Self)
        ensures
            r@ == 0x100,
    {
        MemoryFlags { bits: 0x100 }
    }

    /// Returns the nicks of the single-bit values set in `self`, in
    /// registration order and each bit once, joined with `+`.
    pub fn serialize(&self) -> (r: String)
        ensures
            r@ == single_bit_serialization(Self::spec_values(), self@).0,
    {
        serialize_single_bit(&Self::values(), self.bits)
    }

    /// Parses a string of nicks joined with `+` (the empty string names no
    /// flag), keeping the bits that name flags of the type. Fails if a nick
    /// is not one of the type's.
    pub fn deserialize(s: &str) -> (r: Result<Self, FlagsParseError>)
        ensures
            r is Err <==> parse_flags_spec(Self::spec_values(), s@) is None,
            r matches Ok(f) ==> f@ == parse_flags_spec(Self::spec_values(), s@)->0
                & Self::spec_all_bits(),
    {
        match parse_flags(&Self::values(), s) {
            Some(b) => Ok(Self::from_bits_truncate(b)),
            None => Err(FlagsParseError),
        }
    }
}

impl core::ops::BitOr for MemoryFlags {
    type Output = MemoryFlags;

    fn bitor(self, rhs: MemoryFlags) -> (r: MemoryFlags) {
        MemoryFlags { bits: self.bits | rhs.bits }
    }
}

impl vstd::std_specs::ops::BitOrSpecImpl for MemoryFlags {
    open spec fn obeys_bitor_spec() -> bool {
        true
    }

    open spec fn bitor_req(self, rhs: MemoryFlags) -> bool {
        true
    }

    open spec fn bitor_spec(self, rhs: MemoryFlags) -> MemoryFlags {
        Self::spec_from_bits(self@ | rhs@)
    }
}

/// The flags of a buffer metadata.
#[derive(Clone, Copy, Debug, PartialEq, Eq, Structural, Hash)]
pub struct MetaFlags {
    bits: u32,
}

impl View for MetaFlags {
    type V = u32;

    closed spec fn view(&self) -> u32 {
        self.bits
    }
}

impl MetaFlags {
    /// The bits of all the flags of the type.
    pub open spec fn spec_all_bits() -> u32 {
        0x7
    }

    /// The values registered for the type, in registration order.
    pub open spec fn spec_values() -> Seq<FlagsValue> {
        seq![
            FlagsValue { value: 0x0, nick: "none" },
            FlagsValue { value: 0x1, nick: "readonly" },
            FlagsValue { value: 0x2, nick: "pooled" },
            FlagsValue { value: 0x4, nick: "locked" }
        ]
    }

    /// The flags with the given bits.
    pub closed spec fn spec_from_bits(bits: u32) -> Self {
        MetaFlags { bits }
    }

    /// The flags built from `bits` hold `bits`.
    pub broadcast proof fn lemma_from_bits(bits: u32)
        ensures
            #[trigger] Self::spec_from_bits(bits)@ == bits,
    {
    }

    /// Flags holding the same bits are equal.
    pub proof fn lemma_view_injective(a: Self, b: Self)
        requires
            a@ == b@,
        ensures
            a == b,
    {
    }

    /// Returns the values registered for the type, in registration order.
    pub fn values() -> (r: Vec<FlagsValue>)
        ensures
            r@ == Self::spec_values(),
    {
        let r = vec![
            FlagsValue { value: 0x0, nick: "none" },
            FlagsValue { value: 0x1, nick: "readonly" },
            FlagsValue { value: 0x2, nick: "pooled" },
            FlagsValue { value: 0x4, nick: "locked" }
        ];
        proof {
            assert(r@ =~= Self::spec_values());
        }
        r
    }

    /// Returns the empty set of flags.
    pub fn empty() -> (r: Self)
        ensures
            r@ == 0,
    {
        MetaFlags { bits: 0 }
    }

    /// Returns the set of all the flags of the type.
    pub fn all() -> (r: Self)
        ensures
            r@ == Self::spec_all_bits(),
    {
        MetaFlags { bits: 0x7 }
    }

    /// Returns the bits of `self`.
    pub fn bits(&self) -> (r: u32)
        ensures
            r == self@,
    {
        self.bits
    }

    /// Returns the flags of `bits`, dropping the bits that name no flag.
    pub fn from_bits_truncate(bits: u32) -> (r: Self)
        ensures
            r@ == bits & Self::spec_all_bits(),
    {
        MetaFlags { bits: bits & 0x7 }
    }

    /// Returns the flags of `bits`, or `None` if a bit names no flag.
    pub fn from_bits(bits: u32) -> (r: Option<Self>)
        ensures
            r is Some <==> bits & !Self::spec_all_bits() == 0,
            r matches Some(f) ==> f@ == bits,
    {
        if bits & !0x7 == 0 {
            Some(MetaFlags { bits })
        } else {
            None
        }
    }

    /// Returns whether all the flags of `other` are set in `self`.
    pub fn contains(&self, other: Self) -> (r: bool)
        ensures
            r == (self@ & other@ == other@),
    {
        self.bits & other.bits == other.bits
    }

    /// Returns whether no flag is set.
    pub fn is_empty(&self) -> (r: bool)
        ensures
            r == (self@ == 0),
    {
        self.bits == 0
    }

    /// Returns the flags set in `self` or in `other`.
    pub fn union(self, other: Self) -> (r: Self)
        ensures
            r@ == self@ | other@,
    {
        MetaFlags { bits: self.bits | other.bits }
    }

    /// The `readonly` flags.
    #[allow(non_snake_case)]
    pub fn READONLY() -> (r: Self)
        ensures
            r@ == 0x1,
    {
        MetaFlags { bits: 0x1 }
    }

    /// The `pooled` flags.
    #[allow(non_snake_case)]
    pub fn POOLED() -> (r: Self)
        ensures
            r@ == 0x2,
    {
        MetaFlags { bits: 0x2 }
    }

    /// The `locked` flags.
    #[allow(non_snake_case)]
    pub fn LOCKED() -> (r: Self)
        ensures
            r@ == 0x4,
    {
        MetaFlags { bits: 0x4 }
    }

    /// Returns the nicks of the single-bit values set in `self`, in
    /// registration order and each bit once, joined with `+`.
    pub fn serialize(&self) -> (r: String)
        ensures
            r@ == single_bit_serialization(Self::spec_values(), self@).0,
    {
        serialize_single_bit(&Self::values(), self.bits)
    }

    /// Parses a string of nicks joined with `+` (the empty string names no
    /// flag), keeping the bits that name flags of the type. Fails if a nick
    /// is not one of the type's.
    pub fn deserialize(s: &str) -> (r: Result<Self, FlagsParseError>)
        ensures
            r is Err <==> parse_flags_spec(Self::spec_values(), s@) is None,
            r matches Ok(f) ==> f@ == parse_flags_spec(Self::spec_values(), s@)->0
                & Self::spec_all_bits(),
    {
        match parse_flags(&Self::values(), s) {
            Some(b) => Ok(Self::from_bits_truncate(b)),
            None => Err(FlagsParseError),
        }
    }
}

impl core::ops::BitOr for MetaFlags {
    type Output = MetaFlags;

    fn bitor(self, rhs: MetaFlags) -> (r: MetaFlags) {
        MetaFlags { bits: self.bits | rhs.bits }
    }
}

impl vstd::std_specs::ops::BitOrSpecImpl for MetaFlags {
    open spec fn obeys_bitor_spec() -> bool {
        true
    }

    open spec fn bitor_req(self, rhs: MetaFlags) -> bool {
        true
    }

    open spec fn bitor_spec(self, rhs: MetaFlags) -> MetaFlags {
        Self::spec_from_bits(self@ | rhs@)
    }
}

/// The flags of an object.
#[derive(Clone, Copy, Debug, PartialEq, Eq, Structural, Hash)]
pub struct ObjectFlags {
    bits: u32,
}

impl View for ObjectFlags {
    type V = u32;

    closed spec fn view(&self) -> u32 {
        self.bits
    }
}

impl ObjectFlags {
    /// The bits of all the flags of the type.
    pub open spec fn spec_all_bits() -> u32 {
        0x1
    }

    /// The values registered for the type, in registration order.
    pub open spec fn spec_values() -> Seq<FlagsValue> {
        seq![
            FlagsValue { value: 0x1, nick: "may-be-leaked" }
        ]
    }

    /// The flags with the given bits.
    pub closed spec fn spec_from_bits(bits: u32) -> Self {
        ObjectFlags { bits }
    }

    /// The flags built from `bits` hold `bits`.
    pub broadcast proof fn lemma_from_bits(bits: u32)
        ensures
            #[trigger] Self::spec_from_bits(bits)@ == bits,
    {
    }

    /// Flags holding the same bits are equal.
    pub proof fn lemma_view_injective(a: Self, b: Self)
        requires
            a@ == b@,
        ensures
            a == b,
    {
    }

    /// Returns the values registered for the type, in registration order.
    pub fn values() -> (r: Vec<FlagsValue>)
        ensures
            r@ == Self::spec_values(),
    {
        let r = vec![
            FlagsValue { value: 0x1, nick: "may-be-leaked" }
        ];
        proof {
            assert(r@ =~= Self::spec_values());
        }
        r
    }

    /// Returns the empty set of flags.
    pub fn empty() -> (r: Self)
        ensures
            r@ == 0,
    {
        ObjectFlags { bits: 0 }
    }

    /// Returns the set of all the flags of the type.
    pub fn all() -> (r: Self)
        ensures
            r@ == Self::spec_all_bits(),
    {
        ObjectFlags { bits: 0x1 }
    }

    /// Returns the bits of `self`.
    pub fn bits(&self) -> (r: u32)
        ensures
            r == self@,
    {
        self.bits
    }

    /// Returns the flags of `bits`, dropping the bits that name no flag.
    pub fn from_bits_truncate(bits: u32) -> (r: Self)
        ensures
            r@ == bits & Self::spec_all_bits(),
    {
        ObjectFlags { bits: bits & 0x1 }
    }

    /// Returns the flags of `bits`, or `None` if a bit names no flag.
    pub fn from_bits(bits: u32) -> (r: Option<Self>)
        ensures
            r is Some <==> bits & !Self::spec_all_bits() == 0,
            r matches Some(f) ==> f@ == bits,
    {
        if bits & !0x1 == 0 {
            Some(ObjectFlags { bits })
        } else {
            None
        }
    }

    /// Returns whether all the flags of `other` are set in `self`.
    pub fn contains(&self, other: Self) -> (r: bool)
        ensures
            r == (self@ & other@ == other@),
    {
        self.bits & other.bits == other.bits
    }

    /// Returns whether no flag is set.
    pub fn is_empty(&self) -> (r: bool)
        ensures
            r == (self@ == 0),
    {
        self.bits == 0
    }

    /// Returns the flags set in `self` or in `other`.
    pub fn union(self, other: Self) -> (r: Self)
        ensures
            r@ == self@ | other@,
    {
        ObjectFlags { bits: self.bits | other.bits }
    }

    /// The `may-be-leaked` flags.
    #[allow(non_snake_case)]
    pub fn MAY_BE_LEAKED() -> (r: Self)
        ensures
            r@ == 0x1,
    {
        ObjectFlags { bits: 0x1 }
    }

    /// Returns the nicks of the single-bit values set in `self`, in
    /// registration order and each bit once, joined with `+`.
    pub fn serialize(&self) -> (r: String)
        ensures
            r@ == single_bit_serialization(Self::spec_values(), self@).0,
    {
        serialize_single_bit(&Self::values(), self.bits)
    }

    /// Parses a string of nicks joined with `+` (the empty string names no
    /// flag), keeping the bits that name flags of the type. Fails if a nick
    /// is not one of the type's.
    pub fn deserialize(s: &str) -> (r: Result<Self, FlagsParseError>)
        ensures
            r is Err <==> parse_flags_spec(Self::spec_values(), s@) is None,
            r matches Ok(f) ==> f@ == parse_flags_spec(Self::spec_values(), s@)->0
                & Self::spec_all_bits(),
    {
        match parse_flags(&Self::values(), s) {
            Some(b) => Ok(Self::from_bits_truncate(b)),
            None => Err(FlagsParseError),
        }
    }
}

impl core::ops::BitOr for ObjectFlags {
    type Output = ObjectFlags;

    fn bitor(self, rhs: ObjectFlags) -> (r: ObjectFlags) {
        ObjectFlags { bits: self.bits | rhs.bits }
    }
}

impl vstd::std_specs::ops::BitOrSpecImpl for ObjectFlags {
    open spec fn obeys_bitor_spec() -> bool {
        true
    }

    open spec fn bitor_req(self, rhs: ObjectFlags) -> bool {
        true
    }

    open spec fn bitor_spec(self, rhs: ObjectFlags) -> ObjectFlags {
        Self::spec_from_bits(self@ | rhs@)
    }
}

/// The flags of a pad.
#[derive(Clone, Copy, Debug, PartialEq, Eq, Structural, Hash)]
pub struct PadFlags {
    bits: u32,
}

impl View for PadFlags {
    type V = u32;

    closed spec fn view(&self) -> u32 {
        self.bits
    }
}

impl PadFlags {
    /// The bits of all the flags of the type.
    pub open spec fn spec_all_bits() -> u32 {
        0x1fff0
    }

    /// The values registered for the type, in registration order.
    pub open spec fn spec_values() -> Seq<FlagsValue> {
        seq![
            FlagsValue { value: 0x10, nick: "blocked" },
            FlagsValue { value: 0x20, nick: "flushing" },
            FlagsValue { value: 0x40, nick: "eos" },
            FlagsValue { value: 0x80, nick: "blocking" },
            FlagsValue { value: 0x100, nick: "need-parent" },
            FlagsValue { value: 0x200, nick: "need-reconfigure" },
            FlagsValue { value: 0x400, nick: "pending-events" },
            FlagsValue { value: 0x800, nick: "fixed-caps" },
            FlagsValue { value: 0x1000, nick: "proxy-caps" },
            FlagsValue { value: 0x2000, nick: "proxy-allocation" },
            FlagsValue { value: 0x4000, nick: "proxy-scheduling" },
            FlagsValue { value: 0x8000, nick: "accept-intersect" },
            FlagsValue { value: 0x10000, nick: "accept-template" }
        ]
    }

    /// The flags with the given bits.
    pub closed spec fn spec_from_bits(bits: u32) -> Self {
        PadFlags { bits }
    }

    /// The flags built from `bits` hold `bits`.
    pub broadcast proof fn lemma_from_bits(bits: u32)
        ensures
            #[trigger] Self::spec_from_bits(bits)@ == bits,
    {
    }

    /// Flags holding the same bits are equal.
    pub proof fn lemma_view_injective(a: Self, b: Self)
        requires
            a@ == b@,
        ensures
            a == b,
    {
    }

    /// Returns the values registered for the type, in registration order.
    pub fn values() -> (r: Vec<FlagsValue>)
        ensures
            r@ == Self::spec_values(),
    {
        let r = vec![
            FlagsValue { value: 0x10, nick: "blocked" },
            FlagsValue { value: 0x20, nick: "flushing" },
            FlagsValue { value: 0x40, nick: "eos" },
            FlagsValue { value: 0x80, nick: "blocking" },
            FlagsValue { value: 0x100, nick: "need-parent" },
            FlagsValue { value: 0x200, nick: "need-reconfigure" },
            FlagsValue { value: 0x400, nick: "pending-events" },
            FlagsValue { value: 0x800, nick: "fixed-caps" },
            FlagsValue { value: 0x1000, nick: "proxy-caps" },
            FlagsValue { value: 0x2000, nick: "proxy-allocation" },
            FlagsValue { value: 0x4000, nick: "proxy-scheduling" },
            FlagsValue { value: 0x8000, nick: "accept-intersect" },
            FlagsValue { value: 0x10000, nick: "accept-template" }
        ];
        proof {
            assert(r@ =~= Self::spec_values());
        }
        r
    }

    /// Returns the empty set of flags.
    pub fn empty() -> (r: Self)
        ensures
            r@ == 0,
    {
        PadFlags { bits: 0 }
    }

    /// Returns the set of all the flags of the type.
    pub fn all() -> (r: Self)
        ensures
            r@ == Self::spec_all_bits(),
    {
        PadFlags { bits: 0x1fff0 }
    }

    /// Returns the bits of `self`.
    pub fn bits(&self) -> (r: u32)
        ensures
            r == self@,
    {
        self.bits
    }

    /// Returns the flags of `bits`, dropping the bits that name no flag.
    pub fn from_bits_truncate(bits: u32) -> (r: Self)
        ensures
            r@ == bits & Self::spec_all_bits(),
    {
        PadFlags { bits: bits & 0x1fff0 }
    }

    /// Returns the flags of `bits`, or `None` if a bit names no flag.
    pub fn from_bits(bits: u32) -> (r: Option<Self>)
        ensures
            r is Some <==> bits & !Self::spec_all_bits() == 0,
            r matches Some(f) ==> f@ == bits,
    {
        if bits & !0x1fff0 == 0 {
            Some(PadFlags { bits })
        } else {
            None
        }
    }

    /// Returns whether all the flags of `other` are set in `self`.
    pub fn contains(&self, other: Self) -> (r: bool)
        ensures
            r == (self@ & other@ == other@),
    {
        self.bits & other.bits == other.bits
    }

    /// Returns whether no flag is set.
    pub fn is_empty(&self) -> (r: bool)
        ensures
            r == (self@ == 0),
    {
        self.bits == 0
    }

    /// Returns the flags set in `self` or in `other`.
    pub fn union(self, other: Self) -> (r: Self)
        ensures
            r@ == self@ | other@,
    {
        PadFlags { bits: self.bits | other.bits }
    }

    /// The `blocked` flags.
    #[allow(non_snake_case)]
    pub fn BLOCKED() -> (r: Self)
        ensures
            r@ == 0x10,
    {
        PadFlags { bits: 0x10 }
    }

    /// The `flushing` flags.
    #[allow(non_snake_case)]
    pub fn FLUSHING() -> (r: Self)
        ensures
            r@ == 0x20,
    {
        PadFlags { bits: 0x20 }
    }

    /// The `eos` flags.
    #[allow(non_snake_case)]
    pub fn EOS() -> (r: Self)
        ensures
            r@ == 0x40,
    {
        PadFlags { bits: 0x40 }
    }

    /// The `blocking` flags.
    #[allow(non_snake_case)]
    pub fn BLOCKING() -> (r: Self)
        ensures
            r@ == 0x80,
    {
        PadFlags { bits: 0x80 }
    }

    /// The `need-parent` flags.
    #[allow(non_snake_case)]
    pub fn NEED_PARENT() -> (r: Self)
        ensures
            r@ == 0x100,
    {
        PadFlags { bits: 0x100 }
    }

    /// The `need-reconfigure` flags.
    #[allow(non_snake_case)]
    pub fn NEED_RECONFIGURE() -> (r: Self)
        ensures
            r@ == 0x200,
    {
        PadFlags { bits: 0x200 }
    }

    /// The `pending-events` flags.
    #[allow(non_snake_case)]
    pub fn PENDING_EVENTS() -> (r: Self)
        ensures
            r@ == 0x400,
    {
        PadFlags { bits: 0x400 }
    }

    /// The `fixed-caps` flags.
    #[allow(non_snake_case)]
    pub fn FIXED_CAPS() -> (r: Self)
        ensures
            r@ == 0x800,
    {
        PadFlags { bits: 0x800 }
    }

    /// The `proxy-caps` flags.
    #[allow(non_snake_case)]
    pub fn PROXY_CAPS() -> (r: Self)
        ensures
            r@ == 0x1000,
    {
        PadFlags { bits: 0x1000 }
    }

    /// The `proxy-allocation` flags.
    #[allow(non_snake_case)]
    pub fn PROXY_ALLOCATION() -> (r: Self)
        ensures
            r@ == 0x2000,
    {
        PadFlags { bits: 0x2000 }
    }

    /// The `proxy-scheduling` flags.
    #[allow(non_snake_case)]
    pub fn PROXY_SCHEDULING() -> (r: Self)
        ensures
            r@ == 0x4000,
    {
        PadFlags { bits: 0x4000 }
    }

    /// The `accept-intersect` flags.
    #[allow(non_snake_case)]
    pub fn ACCEPT_INTERSECT() -> (r: Self)
        ensures
            r@ == 0x8000,
    {
        PadFlags { bits: 0x8000 }
    }

    /// The `accept-template` flags.
    #[allow(non_snake_case)]
    pub fn ACCEPT_TEMPLATE() -> (r: Self)
        ensures
            r@ == 0x10000,
    {
        PadFlags { bits: 0x10000 }
    }

    /// Returns the nicks of the single-bit values set in `self`, in
    /// registration order and each bit once, joined with `+`.
    pub fn serialize(&self) -> (r: String)
        ensures
            r@ == single_bit_serialization(Self::spec_values(), self@).0,
    {
        serialize_single_bit(&Self::values(), self.bits)
    }

    /// Parses a string of nicks joined with `+` (the empty string names no
    /// flag), keeping the bits that name flags of the type. Fails if a nick
    /// is not one of the type's.
    pub fn deserialize(s: &str) -> (r: Result<Self, FlagsParseError>)
        ensures
            r is Err <==> parse_flags_spec(Self::spec_values(), s@) is None,
            r matches Ok(f) ==> f@ == parse_flags_spec(Self::spec_values(), s@)->0
                & Self::spec_all_bits(),
    {
        match parse_flags(&Self::values(), s) {
            Some(b) => Ok(Self::from_bits_truncate(b)),
            None => Err(FlagsParseError),
        }
    }
}

impl core::ops::BitOr for PadFlags {
    type Output = PadFlags;

    fn bitor(self, rhs: PadFlags) -> (r: PadFlags) {
        PadFlags { bits: self.bits | rhs.bits }
    }
}

impl vstd::std_specs::ops::BitOrSpecImpl for PadFlags {
    open spec fn obeys_bitor_spec() -> bool {
        true
    }

    open spec fn bitor_req(self, rhs: PadFlags) -> bool {
        true
    }

    open spec fn bitor_spec(self, rhs: PadFlags) -> PadFlags {
        Self::spec_from_bits(self@ | rhs@)
    }
}

/// The checks done when linking pads.
#[derive(Clone, Copy, Debug, PartialEq, Eq, Structural, Hash)]
pub struct PadLinkCheck {
    bits: u32,
}

impl View for PadLinkCheck {
    type V = u32;

    closed spec fn view(&self) -> u32 {
        self.bits
    }
}

impl PadLinkCheck {
    /// The bits of all the flags of the type.
    pub open spec fn spec_all_bits() -> u32 {
        0xf
    }

    /// The values registered for the type, in registration order.
    pub open spec fn spec_values() -> Seq<FlagsValue> {
        seq![
            FlagsValue { value: 0x0, nick: "nothing" },
            FlagsValue { value: 0x1, nick: "hierarchy" },
            FlagsValue { value: 0x2, nick: "template-caps" },
            FlagsValue { value: 0x4, nick: "caps" },
            FlagsValue { value: 0x8, nick: "no-reconfigure" },
            FlagsValue { value: 0x5, nick: "default" }
        ]
    }

    /// The flags with the given bits.
    pub closed spec fn spec_from_bits(bits: u32) -> Self {
        PadLinkCheck { bits }
    }

    /// The flags built from `bits` hold `bits`.
    pub broadcast proof fn lemma_from_bits(bits: u32)
        ensures
            #[trigger] Self::spec_from_bits(bits)@ == bits,
    {
    }

    /// Flags holding the same bits are equal.
    pub proof fn lemma_view_injective(a: Self, b: Self)
        requires
            a@ == b@,
        ensures
            a == b,
    {
    }

    /// Returns the values registered for the type, in registration order.
    pub fn values() -> (r: Vec<FlagsValue>)
        ensures
            r@ == Self::spec_values(),
    {
        let r = vec![
            FlagsValue { value: 0x0, nick: "nothing" },
            FlagsValue { value: 0x1, nick: "hierarchy" },
            FlagsValue { value: 0x2, nick: "template-caps" },
            FlagsValue { value: 0x4, nick: "caps" },
            FlagsValue { value: 0x8, nick: "no-reconfigure" },
            FlagsValue { value: 0x5, nick: "default" }
        ];
        proof {
            assert(r@ =~= Self::spec_values());
        }
        r
    }

    /// Returns the empty set of flags.
    pub fn empty() -> (r: Self)
        ensures
            r@ == 0,
    {
        PadLinkCheck { bits: 0 }
    }

    /// Returns the set of all the flags of the type.
    pub fn all() -> (r: Self)
        ensures
            r@ == Self::spec_all_bits(),
    {
        PadLinkCheck { bits: 0xf }
    }

    /// Returns the bits of `self`.
    pub fn bits(&self) -> (r: u32)
        ensures
            r == self@,
    {
        self.bits
    }

    /// Returns the flags of `bits`, dropping the bits that name no flag.
    pub fn from_bits_truncate(bits: u32) -> (r: Self)
        ensures
            r@ == bits & Self::spec_all_bits(),
    {
        PadLinkCheck { bits: bits & 0xf }
    }

    /// Returns the flags of `bits`, or `None` if a bit names no flag.
    pub fn from_bits(bits: u32) -> (r: Option<Self>)
        ensures
            r is Some <==> bits & !Self::spec_all_bits() == 0,
            r matches Some(f) ==> f@ == bits,
    {
        if bits & !0xf == 0 {
            Some(PadLinkCheck { bits })
        } else {
            None
        }
    }

    /// Returns whether all the flags of `other` are set in `self`.
    pub fn contains(&self, other: Self) -> (r: bool)
        ensures
            r == (self@ & other@ == other@),
    {
        self.bits & other.bits == other.bits
    }

    /// Returns whether no flag is set.
    pub fn is_empty(&self) -> (r: bool)
        ensures
            r == (self@ == 0),
    {
        self.bits == 0
    }

    /// Returns the flags set in `self` or in `other`.
    pub fn union(self, other: Self) -> (r: Self)
        ensures
            r@ == self@ | other@,
    {
        PadLinkCheck { bits: self.bits | other.bits }
    }

    /// The `hierarchy` flags.
    #[allow(non_snake_case)]
    pub fn HIERARCHY() -> (r: Self)
        ensures
            r@ == 0x1,
    {
        PadLinkCheck { bits: 0x1 }
    }

    /// The `template-caps` flags.
    #[allow(non_snake_case)]
    pub fn TEMPLATE_CAPS() -> (r: Self)
        ensures
            r@ == 0x2,
    {
        PadLinkCheck { bits: 0x2 }
    }

    /// The `caps` flags.
    #[allow(non_snake_case)]
    pub fn CAPS() -> (r: Self)
        ensures
            r@ == 0x4,
    {
        PadLinkCheck { bits: 0x4 }
    }

    /// The `no-reconfigure` flags.
    #[allow(non_snake_case)]
    pub fn NO_RECONFIGURE() -> (r: Self)
        ensures
            r@ == 0x8,
    {
        PadLinkCheck { bits: 0x8 }
    }

    /// The `default` flags.
    #[allow(non_snake_case)]
    pub fn DEFAULT() -> (r: Self)
        ensures
            r@ == 0x5,
    {
        PadLinkCheck { bits: 0x5 }
    }

    /// Returns the nicks of the single-bit values set in `self`, in
    /// registration order and each bit once, joined with `+`.
    pub fn serialize(&self) -> (r: String)
        ensures
            r@ == single_bit_serialization(Self::spec_values(), self@).0,
    {
        serialize_single_bit(&Self::values(), self.bits)
    }

    /// Parses a string of nicks joined with `+` (the empty string names no
    /// flag), keeping the bits that name flags of the type. Fails if a nick
    /// is not one of the type's.
    pub fn deserialize(s: &str) -> (r: Result<Self, FlagsParseError>)
        ensures
            r is Err <==> parse_flags_spec(Self::spec_values(), s@) is None,
            r matches Ok(f) ==> f@ == parse_flags_spec(Self::spec_values(), s@)->0
                & Self::spec_all_bits(),
    {
        match parse_flags(&Self::values(), s) {
            Some(b) => Ok(Self::from_bits_truncate(b)),
            None => Err(FlagsParseError),
        }
    }
}

impl core::ops::BitOr for PadLinkCheck {
    type Output = PadLinkCheck;

    fn bitor(self, rhs: PadLinkCheck) -> (r: PadLinkCheck) {
        PadLinkCheck { bits: self.bits | rhs.bits }
    }
}

impl vstd::std_specs::ops::BitOrSpecImpl for PadLinkCheck {
    open spec fn obeys_bitor_spec() -> bool {
        true
    }

    open spec fn bitor_req(self, rhs: PadLinkCheck) -> bool {
        true
    }

    open spec fn bitor_spec(self, rhs: PadLinkCheck) -> PadLinkCheck {
        Self::spec_from_bits(self@ | rhs@)
    }
}

/// The kinds of data and moments a pad probe is called for.
#[derive(Clone, Copy, Debug, PartialEq, Eq, Structural, Hash)]
pub struct PadProbeType {
    bits: u32,
}

impl View for PadProbeType {
    type V = u32;

    closed spec fn view(&self) -> u32 {
        self.bits
    }
}

impl PadProbeType {
    /// The bits of all the flags of the type.
    pub open spec fn spec_all_bits() -> u32 {
        0x37f3
    }

    /// The values registered for the type, in registration order.
    pub open spec fn spec_values() -> Seq<FlagsValue> {
        seq![
            FlagsValue { value: 0x0, nick: "invalid" },
            FlagsValue { value: 0x1, nick: "idle" },
            FlagsValue { value: 0x2, nick: "block" },
            FlagsValue { value: 0x10, nick: "buffer" },
            FlagsValue { value: 0x20, nick: "buffer-list" },
            FlagsValue { value: 0x40, nick: "event-downstream" },
            FlagsValue { value: 0x80, nick: "event-upstream" },
            FlagsValue { value: 0x100, nick: "event-flush" },
            FlagsValue { value: 0x200, nick: "query-downstream" },
            FlagsValue { value: 0x400, nick: "query-upstream" },
            FlagsValue { value: 0x1000, nick: "push" },
            FlagsValue { value: 0x2000, nick: "pull" },
            FlagsValue { value: 0x3, nick: "blocking" },
            FlagsValue { value: 0x70, nick: "data-downstream" },
            FlagsValue { value: 0x80, nick: "data-upstream" },
            FlagsValue { value: 0xf0, nick: "data-both" },
            FlagsValue { value: 0x72, nick: "block-downstream" },
            FlagsValue { value: 0x82, nick: "block-upstream" },
            FlagsValue { value: 0xc0, nick: "event-both" },
            FlagsValue { value: 0x600, nick: "query-both" },
            FlagsValue { value: 0x6f0, nick: "all-both" },
            FlagsValue { value: 0x3000, nick: "scheduling" }
        ]
    }

    /// The flags with the given bits.
    pub closed spec fn spec_from_bits(bits: u32) -> Self {
        PadProbeType { bits }
    }

    /// The flags built from `bits` hold `bits`.
    pub broadcast proof fn lemma_from_bits(bits: u32)
        ensures
            #[trigger] Self::spec_from_bits(bits)@ == bits,
    {
    }

    /// Flags holding the same bits are equal.
    pub proof fn lemma_view_injective(a: Self, b: Self)
        requires
            a@ == b@,
        ensures
            a == b,
    {
    }

    /// Returns the values registered for the type, in registration order.
    pub fn values() -> (r: Vec<FlagsValue>)
        ensures
            r@ == Self::spec_values(),
    {
        let r = vec![
            FlagsValue { value: 0x0, nick: "invalid" },
            FlagsValue { value: 0x1, nick: "idle" },
            FlagsValue { value: 0x2, nick: "block" },
            FlagsValue { value: 0x10, nick: "buffer" },
            FlagsValue { value: 0x20, nick: "buffer-list" },
            FlagsValue { value: 0x40, nick: "event-downstream" },
            FlagsValue { value: 0x80, nick: "event-upstream" },
            FlagsValue { value: 0x100, nick: "event-flush" },
            FlagsValue { value: 0x200, nick: "query-downstream" },
            FlagsValue { value: 0x400, nick: "query-upstream" },
            FlagsValue { value: 0x1000, nick: "push" },
            FlagsValue { value: 0x2000, nick: "pull" },
            FlagsValue { value: 0x3, nick: "blocking" },
            FlagsValue { value: 0x70, nick: "data-downstream" },
            FlagsValue { value: 0x80, nick: "data-upstream" },
            FlagsValue { value: 0xf0, nick: "data-both" },
            FlagsValue { value: 0x72, nick: "block-downstream" },
            FlagsValue { value: 0x82, nick: "block-upstream" },
            FlagsValue { value: 0xc0, nick: "event-both" },
            FlagsValue { value: 0x600, nick: "query-both" },
            FlagsValue { value: 0x6f0, nick: "all-both" },
            FlagsValue { value: 0x3000, nick: "scheduling" }
        ];
        proof {
            assert(r@ =~= Self::spec_values());
        }
        r
    }

    /// Returns the empty set of flags.
    pub fn empty() -> (r: Self)
        ensures
            r@ == 0,
    {
        PadProbeType { bits: 0 }
    }

    /// Returns the set of all the flags of the type.
    pub fn all() -> (r: Self)
        ensures
            r@ == Self::spec_all_bits(),
    {
        PadProbeType { bits: 0x37f3 }
    }

    /// Returns the bits of `self`.
    pub fn bits(&self) -> (r: u32)
        ensures
            r == self@,
    {
        self.bits
    }

    /// Returns the flags of `bits`, dropping the bits that name no flag.
    pub fn from_bits_truncate(bits: u32) -> (r: Self)
        ensures
            r@ == bits & Self::spec_all_bits(),
    {
        PadProbeType { bits: bits & 0x37f3 }
    }

    /// Returns the flags of `bits`, or `None` if a bit names no flag.
    pub fn from_bits(bits: u32) -> (r: Option<Self>)
        ensures
            r is Some <==> bits & !Self::spec_all_bits() == 0,
            r matches Some(f) ==> f@ == bits,
    {
        if bits & !0x37f3 == 0 {
            Some(PadProbeType { bits })
        } else {
            None
        }
    }

    /// Returns whether all the flags of `other` are set in `self`.
    pub fn contains(&self, other: Self) -> (r: bool)
        ensures
            r == (self@ & other@ == other@),
    {
        self.bits & other.bits == other.bits
    }

    /// Returns whether no flag is set.
    pub fn is_empty(&self) -> (r: bool)
        ensures
            r == (self@ == 0),
    {
        self.bits == 0
    }

    /// Returns the flags set in `self` or in `other`.
    pub fn union(self, other: Self) -> (r: Self)
        ensures
            r@ == self@ | other@,
    {
        PadProbeType { bits: self.bits | other.bits }
    }

    /// The `idle` flags.
    #[allow(non_snake_case)]
    pub fn IDLE() -> (r: Self)
        ensures
            r@ == 0x1,
    {
        PadProbeType { bits: 0x1 }
    }

    /// The `block` flags.
    #[allow(non_snake_case)]
    pub fn BLOCK() -> (r: Self)
        ensures
            r@ == 0x2,
    {
        PadProbeType { bits: 0x2 }
    }

    /// The `buffer` flags.
    #[allow(non_snake_case)]
    pub fn BUFFER() -> (r: Self)
        ensures
            r@ == 0x10,
    {
        PadProbeType { bits: 0x10 }
    }

    /// The `buffer-list` flags.
    #[allow(non_snake_case)]
    pub fn BUFFER_LIST() -> (r: Self)
        ensures
            r@ == 0x20,
    {
        PadProbeType { bits: 0x20 }
    }

    /// The `event-downstream` flags.
    #[allow(non_snake_case)]
    pub fn EVENT_DOWNSTREAM() -> (r: Self)
        ensures
            r@ == 0x40,
    {
        PadProbeType { bits: 0x40 }
    }

    /// The `event-upstream` flags.
    #[allow(non_snake_case)]
    pub fn EVENT_UPSTREAM() -> (r: Self)
        ensures
            r@ == 0x80,
    {
        PadProbeType { bits: 0x80 }
    }

    /// The `event-flush` flags.
    #[allow(non_snake_case)]
    pub fn EVENT_FLUSH() -> (r: Self)
        ensures
            r@ == 0x100,
    {
        PadProbeType { bits: 0x100 }
    }

    /// The `query-downstream` flags.
    #[allow(non_snake_case)]
    pub fn QUERY_DOWNSTREAM() -> (r: Self)
        ensures
            r@ == 0x200,
    {
        PadProbeType { bits: 0x200 }
    }

    /// The `query-upstream` flags.
    #[allow(non_snake_case)]
    pub fn QUERY_UPSTREAM() -> (r: Self)
        ensures
            r@ == 0x400,
    {
        PadProbeType { bits: 0x400 }
    }

    /// The `push` flags.
    #[allow(non_snake_case)]
    pub fn PUSH() -> (r: Self)
        ensures
            r@ == 0x1000,
    {
        PadProbeType { bits: 0x1000 }
    }

    /// The `pull` flags.
    #[allow(non_snake_case)]
    pub fn PULL() -> (r: Self)
        ensures
            r@ == 0x2000,
    {
        PadProbeType { bits: 0x2000 }
    }

    /// The `blocking` flags.
    #[allow(non_snake_case)]
    pub fn BLOCKING() -> (r: Self)
        ensures
            r@ == 0x3,
    {
        PadProbeType { bits: 0x3 }
    }

    /// The `data-downstream` flags.
    #[allow(non_snake_case)]
    pub fn DATA_DOWNSTREAM() -> (r: Self)
        ensures
            r@ == 0x70,
    {
        PadProbeType { bits: 0x70 }
    }

    /// The `data-upstream` flags.
    #[allow(non_snake_case)]
    pub fn DATA_UPSTREAM() -> (r: Self)
        ensures
            r@ == 0x80,
    {
        PadProbeType { bits: 0x80 }
    }

    /// The `data-both` flags.
    #[allow(non_snake_case)]
    pub fn DATA_BOTH() -> (r: Self)
        ensures
            r@ == 0xf0,
    {
        PadProbeType { bits: 0xf0 }
    }

    /// The `block-downstream` flags.
    #[allow(non_snake_case)]
    pub fn BLOCK_DOWNSTREAM() -> (r: Self)
        ensures
            r@ == 0x72,
    {
        PadProbeType { bits: 0x72 }
    }

    /// The `block-upstream` flags.
    #[allow(non_snake_case)]
    pub fn BLOCK_UPSTREAM() -> (r: Self)
        ensures
            r@ == 0x82,
    {
        PadProbeType { bits: 0x82 }
    }

    /// The `event-both` flags.
    #[allow(non_snake_case)]
    pub fn EVENT_BOTH() -> (r: Self)
        ensures
            r@ == 0xc0,
    {
        PadProbeType { bits: 0xc0 }
    }

    /// The `query-both` flags.
    #[allow(non_snake_case)]
    pub fn QUERY_BOTH() -> (r: Self)
        ensures
            r@ == 0x600,
    {
        PadProbeType { bits: 0x600 }
    }

    /// The `all-both` flags.
    #[allow(non_snake_case)]
    pub fn ALL_BOTH() -> (r: Self)
        ensures
            r@ == 0x6f0,
    {
        PadProbeType { bits: 0x6f0 }
    }

    /// The `scheduling` flags.
    #[allow(non_snake_case)]
    pub fn SCHEDULING() -> (r: Self)
        ensures
            r@ == 0x3000,
    {
        PadProbeType { bits: 0x3000 }
    }

    /// Returns the nicks of the single-bit values set in `self`, in
    /// registration order and each bit once, joined with `+`.
    pub fn serialize(&self) -> (r: String)
        ensures
            r@ == single_bit_serialization(Self::spec_values(), self@).0,
    {
        serialize_single_bit(&Self::values(), self.bits)
    }

    /// Parses a string of nicks joined with `+` (the empty string names no
    /// flag), keeping the bits that name flags of the type. Fails if a nick
    /// is not one of the type's.
    pub fn deserialize(s: &str) -> (r: Result<Self, FlagsParseError>)
        ensures
            r is Err <==> parse_flags_spec(Self::spec_values(), s@) is None,
            r matches Ok(f) ==> f@ == parse_flags_spec(Self::spec_values(), s@)->0
                & Self::spec_all_bits(),
    {
        match parse_flags(&Self::values(), s) {
            Some(b) => Ok(Self::from_bits_truncate(b)),
            None => Err(FlagsParseError),
        }
    }
}

impl core::ops::BitOr for PadProbeType {
    type Output = PadProbeType;

    fn bitor(self, rhs: PadProbeType) -> (r: PadProbeType) {
        PadProbeType { bits: self.bits | rhs.bits }
    }
}

impl vstd::std_specs::ops::BitOrSpecImpl for PadProbeType {
    open spec fn obeys_bitor_spec() -> bool {
        true
    }

    open spec fn bitor_req(self, rhs: PadProbeType) -> bool {
        true
    }

    open spec fn bitor_spec(self, rhs: PadProbeType) -> PadProbeType {
        Self::spec_from_bits(self@ | rhs@)
    }
}

/// The flags of pipeline description parsing.
#[derive(Clone, Copy, Debug, PartialEq, Eq, Structural, Hash)]
pub struct ParseFlags {
    bits: u32,
}

impl View for ParseFlags {
    type V = u32;

    closed spec fn view(&self) -> u32 {
        self.bits
    }
}

impl ParseFlags {
    /// The bits of all the flags of the type.
    pub open spec fn spec_all_bits() -> u32 {
        0x7
    }

    /// The values registered for the type, in registration order.
    pub open spec fn spec_values() -> Seq<FlagsValue> {
        seq![
            FlagsValue { value: 0x0, nick: "none" },
            FlagsValue { value: 0x1, nick: "fatal-errors" },
            FlagsValue { value: 0x2, nick: "no-single-element-bins" },
            FlagsValue { value: 0x4, nick: "place-in-bin" }
        ]
    }

    /// The flags with the given bits.
    pub closed spec fn spec_from_bits(bits: u32) -> Self {
        ParseFlags { bits }
    }

    /// The flags built from `bits` hold `bits`.
    pub broadcast proof fn lemma_from_bits(bits: u32)
        ensures
            #[trigger] Self::spec_from_bits(bits)@ == bits,
    {
    }

    /// Flags holding the same bits are equal.
    pub proof fn lemma_view_injective(a: Self, b: Self)
        requires
            a@ == b@,
        ensures
            a == b,
    {
    }

    /// Returns the values registered for the type, in registration order.
    pub fn values() -> (r: Vec<FlagsValue>)
        ensures
            r@ == Self::spec_values(),
    {
        let r = vec![
            FlagsValue { value: 0x0, nick: "none" },
            FlagsValue { value: 0x1, nick: "fatal-errors" },
            FlagsValue { value: 0x2, nick: "no-single-element-bins" },
            FlagsValue { value: 0x4, nick: "place-in-bin" }
        ];
        proof {
            assert(r@ =~= Self::spec_values());
        }
        r
    }

    /// Returns the empty set of flags.
    pub fn empty() -> (r: Self)
        ensures
            r@ == 0,
    {
        ParseFlags { bits: 0 }
    }

    /// Returns the set of all the flags of the type.
    pub fn all() -> (r: Self)
        ensures
            r@ == Self::spec_all_bits(),
    {
        ParseFlags { bits: 0x7 }
    }

    /// Returns the bits of `self`.
    pub fn bits(&self) -> (r: u32)
        ensures
            r == self@,
    {
        self.bits
    }

    /// Returns the flags of `bits`, dropping the bits that name no flag.
    pub fn from_bits_truncate(bits: u32) -> (r: Self)
        ensures
            r@ == bits & Self::spec_all_bits(),
    {
        ParseFlags { bits: bits & 0x7 }
    }

    /// Returns the flags of `bits`, or `None` if a bit names no flag.
    pub fn from_bits(bits: u32) -> (r: Option<Self>)
        ensures
            r is Some <==> bits & !Self::spec_all_bits() == 0,
            r matches Some(f) ==> f@ == bits,
    {
        if bits & !0x7 == 0 {
            Some(ParseFlags { bits })
        } else {
            None
        }
    }

    /// Returns whether all the flags of `other` are set in `self`.
    pub fn contains(&self, other: Self) -> (r: bool)
        ensures
            r == (self@ & other@ == other@),
    {
        self.bits & other.bits == other.bits
    }

    /// Returns whether no flag is set.
    pub fn is_empty(&self) -> (r: bool)
        ensures
            r == (self@ == 0),
    {
        self.bits == 0
    }

    /// Returns the flags set in `self` or in `other`.
    pub fn union(self, other: Self) -> (r: Self)
        ensures
            r@ == self@ | other@,
    {
        ParseFlags { bits: self.bits | other.bits }
    }

    /// The `fatal-errors` flags.
    #[allow(non_snake_case)]
    pub fn FATAL_ERRORS() -> (r: Self)
        ensures
            r@ == 0x1,
    {
        ParseFlags { bits: 0x1 }
    }

    /// The `no-single-element-bins` flags.
    #[allow(non_snake_case)]
    pub fn NO_SINGLE_ELEMENT_BINS() -> (r: Self)
        ensures
            r@ == 0x2,
    {
        ParseFlags { bits: 0x2 }
    }

    /// The `place-in-bin` flags.
    #[allow(non_snake_case)]
    pub fn PLACE_IN_BIN() -> (r: Self)
        ensures
            r@ == 0x4,
    {
        ParseFlags { bits: 0x4 }
    }

    /// Returns the nicks of the single-bit values set in `self`, in
    /// registration order and each bit once, joined with `+`.
    pub fn serialize(&self) -> (r: String)
        ensures
            r@ == single_bit_serialization(Self::spec_values(), self@).0,
    {
        serialize_single_bit(&Self::values(), self.bits)
    }

    /// Parses a string of nicks joined with `+` (the empty string names no
    /// flag), keeping the bits that name flags of the type. Fails if a nick
    /// is not one of the type's.
    pub fn deserialize(s: &str) -> (r: Result<Self, FlagsParseError>)
        ensures
            r is Err <==> parse_flags_spec(Self::spec_values(), s@) is None,
            r matches Ok(f) ==> f@ == parse_flags_spec(Self::spec_values(), s@)->0
                & Self::spec_all_bits(),
    {
        match parse_flags(&Self::values(), s) {
            Some(b) => Ok(Self::from_bits_truncate(b)),
            None => Err(FlagsParseError),
        }
    }
}

impl core::ops::BitOr for ParseFlags {
    type Output = ParseFlags;

    fn bitor(self, rhs: ParseFlags) -> (r: ParseFlags) {
        ParseFlags { bits: self.bits | rhs.bits }
    }
}

impl vstd::std_specs::ops::BitOrSpecImpl for ParseFlags {
    open spec fn obeys_bitor_spec() -> bool {
        true
    }

    open spec fn bitor_req(self, rhs: ParseFlags) -> bool {
        true
    }

    open spec fn bitor_spec(self, rhs: ParseFlags) -> ParseFlags {
        Self::spec_from_bits(self@ | rhs@)
    }
}

/// The flags of a plugin API type.
#[derive(Clone, Copy, Debug, PartialEq, Eq, Structural, Hash)]
pub struct PluginAPIFlags {
    bits: u32,
}

impl View for PluginAPIFlags {
    type V = u32;

    closed spec fn view(&self) -> u32 {
        self.bits
    }
}

impl PluginAPIFlags {
    /// The bits of all the flags of the type.
    pub open spec fn spec_all_bits() -> u32 {
        0x1
    }

    /// The values registered for the type, in registration order.
    pub open spec fn spec_values() -> Seq<FlagsValue> {
        seq![
            FlagsValue { value: 0x1, nick: "members" }
        ]
    }

    /// The flags with the given bits.
    pub closed spec fn spec_from_bits(bits: u32) -> Self {
        PluginAPIFlags { bits }
    }

    /// The flags built from `bits` hold `bits`.
    pub broadcast proof fn lemma_from_bits(bits: u32)
        ensures
            #[trigger] Self::spec_from_bits(bits)@ == bits,
    {
    }

    /// Flags holding the same bits are equal.
    pub proof fn lemma_view_injective(a: Self, b: Self)
        requires
            a@ == b@,
        ensures
            a == b,
    {
    }

    /// Returns the values registered for the type, in registration order.
    pub fn values() -> (r: Vec<FlagsValue>)
        ensures
            r@ == Self::spec_values(),
    {
        let r = vec![
            FlagsValue { value: 0x1, nick: "members" }
        ];
        proof {
            assert(r@ =~= Self::spec_values());
        }
        r
    }

    /// Returns the empty set of flags.
    pub fn empty() -> (r: Self)
        ensures
            r@ == 0,
    {
        PluginAPIFlags { bits: 0 }
    }

    /// Returns the set of all the flags of the type.
    pub fn all() -> (r: Self)
        ensures
            r@ == Self::spec_all_bits(),
    {
        PluginAPIFlags { bits: 0x1 }
    }

    /// Returns the bits of `self`.
    pub fn bits(&self) -> (r: u32)
        ensures
            r == self@,
    {
        self.bits
    }

    /// Returns the flags of `bits`, dropping the bits that name no flag.
    pub fn from_bits_truncate(bits: u32) -> (r: Self)
        ensures
            r@ == bits & Self::spec_all_bits(),
    {
        PluginAPIFlags { bits: bits & 0x1 }
    }

    /// Returns the flags of `bits`, or `None` if a bit names no flag.
    pub fn from_bits(bits: u32) -> (r: Option<Self>)
        ensures
            r is Some <==> bits & !Self::spec_all_bits() == 0,
            r matches Some(f) ==> f@ == bits,
    {
        if bits & !0x1 == 0 {
            Some(PluginAPIFlags { bits })
        } else {
            None
        }
    }

    /// Returns whether all the flags of `other` are set in `self`.
    pub fn contains(&self, other: Self) -> (r: bool)
        ensures
            r == (self@ & other@ == other@),
    {
        self.bits & other.bits == other.bits
    }

    /// Returns whether no flag is set.
    pub fn is_empty(&self) -> (r: bool)
        ensures
            r == (self@ == 0),
    {
        self.bits == 0
    }

    /// Returns the flags set in `self` or in `other`.
    pub fn union(self, other: Self) -> (r: Self)
        ensures
            r@ == self@ | other@,
    {
        PluginAPIFlags { bits: self.bits | other.bits }
    }

    /// The `members` flags.
    #[allow(non_snake_case)]
    pub fn MEMBERS() -> (r: Self)
        ensures
            r@ == 0x1,
    {
        PluginAPIFlags { bits: 0x1 }
    }

    /// Returns the nicks of the single-bit values set in `self`, in
    /// registration order and each bit once, joined with `+`.
    pub fn serialize(&self) -> (r: String)
        ensures
            r@ == single_bit_serialization(Self::spec_values(), self@).0,
    {
        serialize_single_bit(&Self::values(), self.bits)
    }

    /// Parses a string of nicks joined with `+` (the empty string names no
    /// flag), keeping the bits that name flags of the type. Fails if a nick
    /// is not one of the type's.
    pub fn deserialize(s: &str) -> (r: Result<Self, FlagsParseError>)
        ensures
            r is Err <==> parse_flags_spec(Self::spec_values(), s@) is None,
            r matches Ok(f) ==> f@ == parse_flags_spec(Self::spec_values(), s@)->0
                & Self::spec_all_bits(),
    {
        match parse_flags(&Self::values(), s) {
            Some(b) => Ok(Self::from_bits_truncate(b)),
            None => Err(FlagsParseError),
        }
    }
}

impl core::ops::BitOr for PluginAPIFlags {
    type Output = PluginAPIFlags;

    fn bitor(self, rhs: PluginAPIFlags) -> (r: PluginAPIFlags) {
        PluginAPIFlags { bits: self.bits | rhs.bits }
    }
}

impl vstd::std_specs::ops::BitOrSpecImpl for PluginAPIFlags {
    open spec fn obeys_bitor_spec() -> bool {
        true
    }

    open spec fn bitor_req(self, rhs: PluginAPIFlags) -> bool {
        true
    }

    open spec fn bitor_spec(self, rhs: PluginAPIFlags) -> PluginAPIFlags {
        Self::spec_from_bits(self@ | rhs@)
    }
}

/// How a plugin dependency is looked up.
#[derive(Clone, Copy, Debug, PartialEq, Eq, Structural, Hash)]
pub struct PluginDependencyFlags {
    bits: u32,
}

impl View for PluginDependencyFlags {
    type V = u32;

    closed spec fn view(&self) -> u32 {
        self.bits
    }
}

impl PluginDependencyFlags {
    /// The bits of all the flags of the type.
    pub open spec fn spec_all_bits() -> u32 {
        0x1f
    }

    /// The values registered for the type, in registration order.
    pub open spec fn spec_values() -> Seq<FlagsValue> {
        seq![
            FlagsValue { value: 0x0, nick: "none" },
            FlagsValue { value: 0x1, nick: "recurse" },
            FlagsValue { value: 0x2, nick: "paths-are-default-only" },
            FlagsValue { value: 0x4, nick: "file-name-is-suffix" },
            FlagsValue { value: 0x8, nick: "file-name-is-prefix" },
            FlagsValue { value: 0x10, nick: "paths-are-relative-to-exe" }
        ]
    }

    /// The flags with the given bits.
    pub closed spec fn spec_from_bits(bits: u32) -> Self {
        PluginDependencyFlags { bits }
    }

    /// The flags built from `bits` hold `bits`.
    pub broadcast proof fn lemma_from_bits(bits: u32)
        ensures
            #[trigger] Self::spec_from_bits(bits)@ == bits,
    {
    }

    /// Flags holding the same bits are equal.
    pub proof fn lemma_view_injective(a: Self, b: Self)
        requires
            a@ == b@,
        ensures
            a == b,
    {
    }

    /// Returns the values registered for the type, in registration order.
    pub fn values() -> (r: Vec<FlagsValue>)
        ensures
            r@ == Self::spec_values(),
    {
        let r = vec![
            FlagsValue { value: 0x0, nick: "none" },
            FlagsValue { value: 0x1, nick: "recurse" },
            FlagsValue { value: 0x2, nick: "paths-are-default-only" },
            FlagsValue { value: 0x4, nick: "file-name-is-suffix" },
            FlagsValue { value: 0x8, nick: "file-name-is-prefix" },
            FlagsValue { value: 0x10, nick: "paths-are-relative-to-exe" }
        ];
        proof {
            assert(r@ =~= Self::spec_values());
        }
        r
    }

    /// Returns the empty set of flags.
    pub fn empty() -> (r: Self)
        ensures
            r@ == 0,
    {
        PluginDependencyFlags { bits: 0 }
    }

    /// Returns the set of all the flags of the type.
    pub fn all() -> (r: Self)
        ensures
            r@ == Self::spec_all_bits(),
    {
        PluginDependencyFlags { bits: 0x1f }
    }

    /// Returns the bits of `self`.
    pub fn bits(&self) -> (r: u32)
        ensures
            r == self@,
    {
        self.bits
    }

    /// Returns the flags of `bits`, dropping the bits that name no flag.
    pub fn from_bits_truncate(bits: u32) -> (r: Self)
        ensures
            r@ == bits & Self::spec_all_bits(),
    {
        PluginDependencyFlags { bits: bits & 0x1f }
    }

    /// Returns the flags of `bits`, or `None` if a bit names no flag.
    pub fn from_bits(bits: u32) -> (r: Option<Self>)
        ensures
            r is Some <==> bits & !Self::spec_all_bits() == 0,
            r matches Some(f) ==> f@ == bits,
    {
        if bits & !0x1f == 0 {
            Some(PluginDependencyFlags { bits })
        } else {
            None
        }
    }

    /// Returns whether all the flags of `other` are set in `self`.
    pub fn contains(&self, other: Self) -> (r: bool)
        ensures
            r == (self@ & other@ == other@),
    {
        self.bits & other.bits == other.bits
    }

    /// Returns whether no flag is set.
    pub fn is_empty(&self) -> (r: bool)
        ensures
            r == (self@ == 0),
    {
        self.bits == 0
    }

    /// Returns the flags set in `self` or in `other`.
    pub fn union(self, other: Self) -> (r: Self)
        ensures
            r@ == self@ | other@,
    {
        PluginDependencyFlags { bits: self.bits | other.bits }
    }

    /// The `recurse` flags.
    #[allow(non_snake_case)]
    pub fn RECURSE() -> (r: Self)
        ensures
            r@ == 0x1,
    {
        PluginDependencyFlags { bits: 0x1 }
    }

    /// The `paths-are-default-only` flags.
    #[allow(non_snake_case)]
    pub fn PATHS_ARE_DEFAULT_ONLY() -> (r: Self)
        ensures
            r@ == 0x2,
    {
        PluginDependencyFlags { bits: 0x2 }
    }

    /// The `file-name-is-suffix` flags.
    #[allow(non_snake_case)]
    pub fn FILE_NAME_IS_SUFFIX() -> (r: Self)
        ensures
            r@ == 0x4,
    {
        PluginDependencyFlags { bits: 0x4 }
    }

    /// The `file-name-is-prefix` flags.
    #[allow(non_snake_case)]
    pub fn FILE_NAME_IS_PREFIX() -> (r: Self)
        ensures
            r@ == 0x8,
    {
        PluginDependencyFlags { bits: 0x8 }
    }

    /// The `paths-are-relative-to-exe` flags.
    #[allow(non_snake_case)]
    pub fn PATHS_ARE_RELATIVE_TO_EXE() -> (r: Self)
        ensures
            r@ == 0x10,
    {
        PluginDependencyFlags { bits: 0x10 }
    }

    /// Returns the nicks of the single-bit values set in `self`, in
    /// registration order and each bit once, joined with `+`.
    pub fn serialize(&self) -> (r: String)
        ensures
            r@ == single_bit_serialization(Self::spec_values(), self@).0,
    {
        serialize_single_bit(&Self::values(), self.bits)
    }

    /// Parses a string of nicks joined with `+` (the empty string names no
    /// flag), keeping the bits that name flags of the type. Fails if a nick
    /// is not one of the type's.
    pub fn deserialize(s: &str) -> (r: Result<Self, FlagsParseError>)
        ensures
            r is Err <==> parse_flags_spec(Self::spec_values(), s@) is None,
            r matches Ok(f) ==> f@ == parse_flags_spec(Self::spec_values(), s@)->0
                & Self::spec_all_bits(),
    {
        match parse_flags(&Self::values(), s) {
            Some(b) => Ok(Self::from_bits_truncate(b)),
            None => Err(FlagsParseError),
        }
    }
}

impl core::ops::BitOr for PluginDependencyFlags {
    type Output = PluginDependencyFlags;

    fn bitor(self, rhs: PluginDependencyFlags) -> (r: PluginDependencyFlags) {
        PluginDependencyFlags { bits: self.bits | rhs.bits }
    }
}

impl vstd::std_specs::ops::BitOrSpecImpl for PluginDependencyFlags {
    open spec fn obeys_bitor_spec() -> bool {
        true
    }

    open spec fn bitor_req(self, rhs: PluginDependencyFlags) -> bool {
        true
    }

    open spec fn bitor_spec(self, rhs: PluginDependencyFlags) -> PluginDependencyFlags {
        Self::spec_from_bits(self@ | rhs@)
    }
}

/// The flags of a plugin.
#[derive(Clone, Copy, Debug, PartialEq, Eq, Structural, Hash)]
pub struct PluginFlags {
    bits: u32,
}

impl View for PluginFlags {
    type V = u32;

    closed spec fn view(&self) -> u32 {
        self.bits
    }
}

impl PluginFlags {
    /// The bits of all the flags of the type.
    pub open spec fn spec_all_bits() -> u32 {
        0x30
    }

    /// The values registered for the type, in registration order.
    pub open spec fn spec_values() -> Seq<FlagsValue> {
        seq![
            FlagsValue { value: 0x10, nick: "cached" },
            FlagsValue { value: 0x20, nick: "blacklisted" }
        ]
    }

    /// The flags with the given bits.
    pub closed spec fn spec_from_bits(bits: u32) -> Self {
        PluginFlags { bits }
    }

    /// The flags built from `bits` hold `bits`.
    pub broadcast proof fn lemma_from_bits(bits: u32)
        ensures
            #[trigger] Self::spec_from_bits(bits)@ == bits,
    {
    }

    /// Flags holding the same bits are equal.
    pub proof fn lemma_view_injective(a: Self, b: Self)
        requires
            a@ == b@,
        ensures
            a == b,
    {
    }

    /// Returns the values registered for the type, in registration order.
    pub fn values() -> (r: Vec<FlagsValue>)
        ensures
            r@ == Self::spec_values(),
    {
        let r = vec![
            FlagsValue { value: 0x10, nick: "cached" },
            FlagsValue { value: 0x20, nick: "blacklisted" }
        ];
        proof {
            assert(r@ =~= Self::spec_values());
        }
        r
    }

    /// Returns the empty set of flags.
    pub fn empty() -> (r: Self)
        ensures
            r@ == 0,
    {
        PluginFlags { bits: 0 }
    }

    /// Returns the set of all the flags of the type.
    pub fn all() -> (r: Self)
        ensures
            r@ == Self::spec_all_bits(),
    {
        PluginFlags { bits: 0x30 }
    }

    /// Returns the bits of `self`.
    pub fn bits(&self) -> (r: u32)
        ensures
            r == self@,
    {
        self.bits
    }

    /// Returns the flags of `bits`, dropping the bits that name no flag.
    pub fn from_bits_truncate(bits: u32) -> (r: Self)
        ensures
            r@ == bits & Self::spec_all_bits(),
    {
        PluginFlags { bits: bits & 0x30 }
    }

    /// Returns the flags of `bits`, or `None` if a bit names no flag.
    pub fn from_bits(bits: u32) -> (r: Option<Self>)
        ensures
            r is Some <==> bits & !Self::spec_all_bits() == 0,
            r matches Some(f) ==> f@ == bits,
    {
        if bits & !0x30 == 0 {
            Some(PluginFlags { bits })
        } else {
            None
        }
    }

    /// Returns whether all the flags of `other` are set in `self`.
    pub fn contains(&self, other: Self) -> (r: bool)
        ensures
            r == (self@ & other@ == other@),
    {
        self.bits & other.bits == other.bits
    }

    /// Returns whether no flag is set.
    pub fn is_empty(&self) -> (r: bool)
        ensures
            r == (self@ == 0),
    {
        self.bits == 0
    }

    /// Returns the flags set in `self` or in `other`.
    pub fn union(self, other: Self) -> (r: Self)
        ensures
            r@ == self@ | other@,
    {
        PluginFlags { bits: self.bits | other.bits }
    }

    /// The `cached` flags.
    #[allow(non_snake_case)]
    pub fn CACHED() -> (r: Self)
        ensures
            r@ == 0x10,
    {
        PluginFlags { bits: 0x10 }
    }

    /// The `blacklisted` flags.
    #[allow(non_snake_case)]
    pub fn BLACKLISTED() -> (r: Self)
        ensures
            r@ == 0x20,
    {
        PluginFlags { bits: 0x20 }
    }

    /// Returns the nicks of the single-bit values set in `self`, in
    /// registration order and each bit once, joined with `+`.
    pub fn serialize(&self) -> (r: String)
        ensures
            r@ == single_bit_serialization(Self::spec_values(), self@).0,
    {
        serialize_single_bit(&Self::values(), self.bits)
    }

    /// Parses a string of nicks joined with `+` (the empty string names no
    /// flag), keeping the bits that name flags of the type. Fails if a nick
    /// is not one of the type's.
    pub fn deserialize(s: &str) -> (r: Result<Self, FlagsParseError>)
        ensures
            r is Err <==> parse_flags_spec(Self::spec_values(), s@) is None,
            r matches Ok(f) ==> f@ == parse_flags_spec(Self::spec_values(), s@)->0
                & Self::spec_all_bits(),
    {
        match parse_flags(&Self::values(), s) {
            Some(b) => Ok(Self::from_bits_truncate(b)),
            None => Err(FlagsParseError),
        }
    }
}

impl core::ops::BitOr for PluginFlags {
    type Output = PluginFlags;

    fn bitor(self, rhs: PluginFlags) -> (r: PluginFlags) {
        PluginFlags { bits: self.bits | rhs.bits }
    }
}

impl vstd::std_specs::ops::BitOrSpecImpl for PluginFlags {
    open spec fn obeys_bitor_spec() -> bool {
        true
    }

    open spec fn bitor_req(self, rhs: PluginFlags) -> bool {
        true
    }

    open spec fn bitor_spec(self, rhs: PluginFlags) -> PluginFlags {
        Self::spec_from_bits(self@ | rhs@)
    }
}

/// The scheduling properties of a pad.
#[derive(Clone, Copy, Debug, PartialEq, Eq, Structural, Hash)]
pub struct SchedulingFlags {
    bits: u32,
}

impl View for SchedulingFlags {
    type V = u32;

    closed spec fn view(&self) -> u32 {
        self.bits
    }
}

impl SchedulingFlags {
    /// The bits of all the flags of the type.
    pub open spec fn spec_all_bits() -> u32 {
        0x7
    }

    /// The values registered for the type, in registration order.
    pub open spec fn spec_values() -> Seq<FlagsValue> {
        seq![
            FlagsValue { value: 0x1, nick: "seekable" },
            FlagsValue { value: 0x2, nick: "sequential" },
            FlagsValue { value: 0x4, nick: "bandwidth-limited" }
        ]
    }

    /// The flags with the given bits.
    pub closed spec fn spec_from_bits(bits: u32) -> Self {
        SchedulingFlags { bits }
    }

    /// The flags built from `bits` hold `bits`.
    pub broadcast proof fn lemma_from_bits(bits: u32)
        ensures
            #[trigger] Self::spec_from_bits(bits)@ == bits,
    {
    }

    /// Flags holding the same bits are equal.
    pub proof fn lemma_view_injective(a: Self, b: Self)
        requires
            a@ == b@,
        ensures
            a == b,
    {
    }

    /// Returns the values registered for the type, in registration order.
    pub fn values() -> (r: Vec<FlagsValue>)
        ensures
            r@ == Self::spec_values(),
    {
        let r = vec![
            FlagsValue { value: 0x1, nick: "seekable" },
            FlagsValue { value: 0x2, nick: "sequential" },
            FlagsValue { value: 0x4, nick: "bandwidth-limited" }
        ];
        proof {
            assert(r@ =~= Self::spec_values());
        }
        r
    }

    /// Returns the empty set of flags.
    pub fn empty() -> (r: Self)
        ensures
            r@ == 0,
    {
        SchedulingFlags { bits: 0 }
    }

    /// Returns the set of all the flags of the type.
    pub fn all() -> (r: Self)
        ensures
            r@ == Self::spec_all_bits(),
    {
        SchedulingFlags { bits: 0x7 }
    }

    /// Returns the bits of `self`.
    pub fn bits(&self) -> (r: u32)
        ensures
            r == self@,
    {
        self.bits
    }

    /// Returns the flags of `bits`, dropping the bits that name no flag.
    pub fn from_bits_truncate(bits: u32) -> (r: Self)
        ensures
            r@ == bits & Self::spec_all_bits(),
    {
        SchedulingFlags { bits: bits & 0x7 }
    }

    /// Returns the flags of `bits`, or `None` if a bit names no flag.
    pub fn from_bits(bits: u32) -> (r: Option<Self>)
        ensures
            r is Some <==> bits & !Self::spec_all_bits() == 0,
            r matches Some(f) ==> f@ == bits,
    {
        if bits & !0x7 == 0 {
            Some(SchedulingFlags { bits })
        } else {
            None
        }
    }

    /// Returns whether all the flags of `other` are set in `self`.
    pub fn contains(&self, other: Self) -> (r: bool)
        ensures
            r == (self@ & other@ == other@),
    {
        self.bits & other.bits == other.bits
    }

    /// Returns whether no flag is set.
    pub fn is_empty(&self) -> (r: bool)
        ensures
            r == (self@ == 0),
    {
        self.bits == 0
    }

    /// Returns the flags set in `self` or in `other`.
    pub fn union(self, other: Self) -> (r: Self)
        ensures
            r@ == self@ | other@,
    {
        SchedulingFlags { bits: self.bits | other.bits }
    }

    /// The `seekable` flags.
    #[allow(non_snake_case)]
    pub fn SEEKABLE() -> (r: Self)
        ensures
            r@ == 0x1,
    {
        SchedulingFlags { bits: 0x1 }
    }

    /// The `sequential` flags.
    #[allow(non_snake_case)]
    pub fn SEQUENTIAL() -> (r: Self)
        ensures
            r@ == 0x2,
    {
        SchedulingFlags { bits: 0x2 }
    }

    /// The `bandwidth-limited` flags.
    #[allow(non_snake_case)]
    pub fn BANDWIDTH_LIMITED() -> (r: Self)
        ensures
            r@ == 0x4,
    {
        SchedulingFlags { bits: 0x4 }
    }

    /// Returns the nicks of the single-bit values set in `self`, in
    /// registration order and each bit once, joined with `+`.
    pub fn serialize(&self) -> (r: String)
        ensures
            r@ == single_bit_serialization(Self::spec_values(), self@).0,
    {
        serialize_single_bit(&Self::values(), self.bits)
    }

    /// Parses a string of nicks joined with `+` (the empty string names no
    /// flag), keeping the bits that name flags of the type. Fails if a nick
    /// is not one of the type's.
    pub fn deserialize(s: &str) -> (r: Result<Self, FlagsParseError>)
        ensures
            r is Err <==> parse_flags_spec(Self::spec_values(), s@) is None,
            r matches Ok(f) ==> f@ == parse_flags_spec(Self::spec_values(), s@)->0
                & Self::spec_all_bits(),
    {
        match parse_flags(&Self::values(), s) {
            Some(b) => Ok(Self::from_bits_truncate(b)),
            None => Err(FlagsParseError),
        }
    }
}

impl core::ops::BitOr for SchedulingFlags {
    type Output = SchedulingFlags;

    fn bitor(self, rhs: SchedulingFlags) -> (r: SchedulingFlags) {
        SchedulingFlags { bits: self.bits | rhs.bits }
    }
}

impl vstd::std_specs::ops::BitOrSpecImpl for SchedulingFlags {
    open spec fn obeys_bitor_spec() -> bool {
        true
    }

    open spec fn bitor_req(self, rhs: SchedulingFlags) -> bool {
        true
    }

    open spec fn bitor_spec(self, rhs: SchedulingFlags) -> SchedulingFlags {
        Self::spec_from_bits(self@ | rhs@)
    }
}

/// The flags of a seek.
#[derive(Clone, Copy, Debug, PartialEq, Eq, Structural, Hash)]
pub struct SeekFlags {
    bits: u32,
}

impl View for SeekFlags {
    type V = u32;

    closed spec fn view(&self) -> u32 {
        self.bits
    }
}

impl SeekFlags {
    /// The bits of all the flags of the type.
    pub open spec fn spec_all_bits() -> u32 {
        0x7ff
    }

    /// The values registered for the type, in registration order.
    pub open spec fn spec_values() -> Seq<FlagsValue> {
        seq![
            FlagsValue { value: 0x0, nick: "none" },
            FlagsValue { value: 0x1, nick: "flush" },
            FlagsValue { value: 0x2, nick: "accurate" },
            FlagsValue { value: 0x4, nick: "key-unit" },
            FlagsValue { value: 0x8, nick: "segment" },
            FlagsValue { value: 0x10, nick: "trickmode" },
            FlagsValue { value: 0x10, nick: "skip" },
            FlagsValue { value: 0x20, nick: "snap-before" },
            FlagsValue { value: 0x40, nick: "snap-after" },
            FlagsValue { value: 0x60, nick: "snap-nearest" },
            FlagsValue { value: 0x80, nick: "trickmode-key-units" },
            FlagsValue { value: 0x100, nick: "trickmode-no-audio" },
            FlagsValue { value: 0x200, nick: "trickmode-forward-predicted" },
            FlagsValue { value: 0x400, nick: "instant-rate-change" }
        ]
    }

    /// The flags with the given bits.
    pub closed spec fn spec_from_bits(bits: u32) -> Self {
        SeekFlags { bits }
    }

    /// The flags built from `bits` hold `bits`.
    pub broadcast proof fn lemma_from_bits(bits: u32)
        ensures
            #[trigger] Self::spec_from_bits(bits)@ == bits,
    {
    }

    /// Flags holding the same bits are equal.
    pub proof fn lemma_view_injective(a: Self, b: Self)
        requires
            a@ == b@,
        ensures
            a == b,
    {
    }

    /// Returns the values registered for the type, in registration order.
    pub fn values() -> (r: Vec<FlagsValue>)
        ensures
            r@ == Self::spec_values(),
    {
        let r = vec![
            FlagsValue { value: 0x0, nick: "none" },
            FlagsValue { value: 0x1, nick: "flush" },
            FlagsValue { value: 0x2, nick: "accurate" },
            FlagsValue { value: 0x4, nick: "key-unit" },
            FlagsValue { value: 0x8, nick: "segment" },
            FlagsValue { value: 0x10, nick: "trickmode" },
            FlagsValue { value: 0x10, nick: "skip" },
            FlagsValue { value: 0x20, nick: "snap-before" },
            FlagsValue { value: 0x40, nick: "snap-after" },
            FlagsValue { value: 0x60, nick: "snap-nearest" },
            FlagsValue { value: 0x80, nick: "trickmode-key-units" },
            FlagsValue { value: 0x100, nick: "trickmode-no-audio" },
            FlagsValue { value: 0x200, nick: "trickmode-forward-predicted" },
            FlagsValue { value: 0x400, nick: "instant-rate-change" }
        ];
        proof {
            assert(r@ =~= Self::spec_values());
        }
        r
    }

    /// Returns the empty set of flags.
    pub fn empty() -> (r: Self)
        ensures
            r@ == 0,
    {
        SeekFlags { bits: 0 }
    }

    /// Returns the set of all the flags of the type.
    pub fn all() -> (r: Self)
        ensures
            r@ == Self::spec_all_bits(),
    {
        SeekFlags { bits: 0x7ff }
    }

    /// Returns the bits of `self`.
    pub fn bits(&self) -> (r: u32)
        ensures
            r == self@,
    {
        self.bits
    }

    /// Returns the flags of `bits`, dropping the bits that name no flag.
    pub fn from_bits_truncate(bits: u32) -> (r: Self)
        ensures
            r@ == bits & Self::spec_all_bits(),
    {
        SeekFlags { bits: bits & 0x7ff }
    }

    /// Returns the flags of `bits`, or `None` if a bit names no flag.
    pub fn from_bits(bits: u32) -> (r: Option<Self>)
        ensures
            r is Some <==> bits & !Self::spec_all_bits() == 0,
            r matches Some(f) ==> f@ == bits,
    {
        if bits & !0x7ff == 0 {
            Some(SeekFlags { bits })
        } else {
            None
        }
    }

    /// Returns whether all the flags of `other` are set in `self`.
    pub fn contains(&self, other: Self) -> (r: bool)
        ensures
            r == (self@ & other@ == other@),
    {
        self.bits & other.bits == other.bits
    }

    /// Returns whether no flag is set.
    pub fn is_empty(&self) -> (r: bool)
        ensures
            r == (self@ == 0),
    {
        self.bits == 0
    }

    /// Returns the flags set in `self` or in `other`.
    pub fn union(self, other: Self) -> (r: Self)
        ensures
            r@ == self@ | other@,
    {
        SeekFlags { bits: self.bits | other.bits }
    }

    /// The `flush` flags.
    #[allow(non_snake_case)]
    pub fn FLUSH() -> (r: Self)
        ensures
            r@ == 0x1,
    {
        SeekFlags { bits: 0x1 }
    }

    /// The `accurate` flags.
    #[allow(non_snake_case)]
    pub fn ACCURATE() -> (r: Self)
        ensures
            r@ == 0x2,
    {
        SeekFlags { bits: 0x2 }
    }

    /// The `key-unit` flags.
    #[allow(non_snake_case)]
    pub fn KEY_UNIT() -> (r: Self)
        ensures
            r@ == 0x4,
    {
        SeekFlags { bits: 0x4 }
    }

    /// The `segment` flags.
    #[allow(non_snake_case)]
    pub fn SEGMENT() -> (r: Self)
        ensures
            r@ == 0x8,
    {
        SeekFlags { bits: 0x8 }
    }

    /// The `trickmode` flags.
    #[allow(non_snake_case)]
    pub fn TRICKMODE() -> (r: Self)
        ensures
            r@ == 0x10,
    {
        SeekFlags { bits: 0x10 }
    }

    /// The `skip` flags.
    #[allow(non_snake_case)]
    pub fn SKIP() -> (r: Self)
        ensures
            r@ == 0x10,
    {
        SeekFlags { bits: 0x10 }
    }

    /// The `snap-before` flags.
    #[allow(non_snake_case)]
    pub fn SNAP_BEFORE() -> (r: Self)
        ensures
            r@ == 0x20,
    {
        SeekFlags { bits: 0x20 }
    }

    /// The `snap-after` flags.
    #[allow(non_snake_case)]
    pub fn SNAP_AFTER() -> (r: Self)
        ensures
            r@ == 0x40,
    {
        SeekFlags { bits: 0x40 }
    }

    /// The `snap-nearest` flags.
    #[allow(non_snake_case)]
    pub fn SNAP_NEAREST() -> (r: Self)
        ensures
            r@ == 0x60,
    {
        SeekFlags { bits: 0x60 }
    }

    /// The `trickmode-key-units` flags.
    #[allow(non_snake_case)]
    pub fn TRICKMODE_KEY_UNITS() -> (r: Self)
        ensures
            r@ == 0x80,
    {
        SeekFlags { bits: 0x80 }
    }

    /// The `trickmode-no-audio` flags.
    #[allow(non_snake_case)]
    pub fn TRICKMODE_NO_AUDIO() -> (r: Self)
        ensures
            r@ == 0x100,
    {
        SeekFlags { bits: 0x100 }
    }

    /// The `trickmode-forward-predicted` flags.
    #[allow(non_snake_case)]
    pub fn TRICKMODE_FORWARD_PREDICTED() -> (r: Self)
        ensures
            r@ == 0x200,
    {
        SeekFlags { bits: 0x200 }
    }

    /// The `instant-rate-change` flags.
    #[allow(non_snake_case)]
    pub fn INSTANT_RATE_CHANGE() -> (r: Self)
        ensures
            r@ == 0x400,
    {
        SeekFlags { bits: 0x400 }
    }

    /// Returns the nicks of the single-bit values set in `self`, in
    /// registration order and each bit once, joined with `+`.
    pub fn serialize(&self) -> (r: String)
        ensures
            r@ == single_bit_serialization(Self::spec_values(), self@).0,
    {
        serialize_single_bit(&Self::values(), self.bits)
    }

    /// Parses a string of nicks joined with `+` (the empty string names no
    /// flag), keeping the bits that name flags of the type. Fails if a nick
    /// is not one of the type's.
    pub fn deserialize(s: &str) -> (r: Result<Self, FlagsParseError>)
        ensures
            r is Err <==> parse_flags_spec(Self::spec_values(), s@) is None,
            r matches Ok(f) ==> f@ == parse_flags_spec(Self::spec_values(), s@)->0
                & Self::spec_all_bits(),
    {
        match parse_flags(&Self::values(), s) {
            Some(b) => Ok(Self::from_bits_truncate(b)),
            None => Err(FlagsParseError),
        }
    }
}

impl core::ops::BitOr for SeekFlags {
    type Output = SeekFlags;

    fn bitor(self, rhs: SeekFlags) -> (r: SeekFlags) {
        SeekFlags { bits: self.bits | rhs.bits }
    }
}

impl vstd::std_specs::ops::BitOrSpecImpl for SeekFlags {
    open spec fn obeys_bitor_spec() -> bool {
        true
    }

    open spec fn bitor_req(self, rhs: SeekFlags) -> bool {
        true
    }

    open spec fn bitor_spec(self, rhs: SeekFlags) -> SeekFlags {
        Self::spec_from_bits(self@ | rhs@)
    }
}

/// The flags of a segment.
#[derive(Clone, Copy, Debug, PartialEq, Eq, Structural, Hash)]
pub struct SegmentFlags {
    bits: u32,
}

impl View for SegmentFlags {
    type V = u32;

    closed spec fn view(&self) -> u32 {
        self.bits
    }
}

impl SegmentFlags {
    /// The bits of all the flags of the type.
    pub open spec fn spec_all_bits() -> u32 {
        0x399
    }

    /// The values registered for the type, in registration order.
    pub open spec fn spec_values() -> Seq<FlagsValue> {
        seq![
            FlagsValue { value: 0x0, nick: "none" },
            FlagsValue { value: 0x1, nick: "reset" },
            FlagsValue { value: 0x10, nick: "trickmode" },
            FlagsValue { value: 0x10, nick: "skip" },
            FlagsValue { value: 0x8, nick: "segment" },
            FlagsValue { value: 0x80, nick: "trickmode-key-units" },
            FlagsValue { value: 0x200, nick: "trickmode-forward-predicted" },
            FlagsValue { value: 0x100, nick: "trickmode-no-audio" }
        ]
    }

    /// The flags with the given bits.
    pub closed spec fn spec_from_bits(bits: u32) -> Self {
        SegmentFlags { bits }
    }

    /// The flags built from `bits` hold `bits`.
    pub broadcast proof fn lemma_from_bits(bits: u32)
        ensures
            #[trigger] Self::spec_from_bits(bits)@ == bits,
    {
    }

    /// Flags holding the same bits are equal.
    pub proof fn lemma_view_injective(a: Self, b: Self)
        requires
            a@ == b@,
        ensures
            a == b,
    {
    }

    /// Returns the values registered for the type, in registration order.
    pub fn values() -> (r: Vec<FlagsValue>)
        ensures
            r@ == Self::spec_values(),
    {
        let r = vec![
            FlagsValue { value: 0x0, nick: "none" },
            FlagsValue { value: 0x1, nick: "reset" },
            FlagsValue { value: 0x10, nick: "trickmode" },
            FlagsValue { value: 0x10, nick: "skip" },
            FlagsValue { value: 0x8, nick: "segment" },
            FlagsValue { value: 0x80, nick: "trickmode-key-units" },
            FlagsValue { value: 0x200, nick: "trickmode-forward-predicted" },
            FlagsValue { value: 0x100, nick: "trickmode-no-audio" }
        ];
        proof {
            assert(r@ =~= Self::spec_values());
        }
        r
    }

    /// Returns the empty set of flags.
    pub fn empty() -> (r: Self)
        ensures
            r@ == 0,
    {
        SegmentFlags { bits: 0 }
    }

    /// Returns the set of all the flags of the type.
    pub fn all() -> (r: Self)
        ensures
            r@ == Self::spec_all_bits(),
    {
        SegmentFlags { bits: 0x399 }
    }

    /// Returns the bits of `self`.
    pub fn bits(&self) -> (r: u32)
        ensures
            r == self@,
    {
        self.bits
    }

    /// Returns the flags of `bits`, dropping the bits that name no flag.
    pub fn from_bits_truncate(bits: u32) -> (r: Self)
        ensures
            r@ == bits & Self::spec_all_bits(),
    {
        SegmentFlags { bits: bits & 0x399 }
    }

    /// Returns the flags of `bits`, or `None` if a bit names no flag.
    pub fn from_bits(bits: u32) -> (r: Option<Self>)
        ensures
            r is Some <==> bits & !Self::spec_all_bits() == 0,
            r matches Some(f) ==> f@ == bits,
    {
        if bits & !0x399 == 0 {
            Some(SegmentFlags { bits })
        } else {
            None
        }
    }

    /// Returns whether all the flags of `other` are set in `self`.
    pub fn contains(&self, other: Self) -> (r: bool)
        ensures
            r == (self@ & other@ == other@),
    {
        self.bits & other.bits == other.bits
    }

    /// Returns whether no flag is set.
    pub fn is_empty(&self) -> (r: bool)
        ensures
            r == (self@ == 0),
    {
        self.bits == 0
    }

    /// Returns the flags set in `self` or in `other`.
    pub fn union(self, other: Self) -> (r: Self)
        ensures
            r@ == self@ | other@,
    {
        SegmentFlags { bits: self.bits | other.bits }
    }

    /// The `reset` flags.
    #[allow(non_snake_case)]
    pub fn RESET() -> (r: Self)
        ensures
            r@ == 0x1,
    {
        SegmentFlags { bits: 0x1 }
    }

    /// The `trickmode` flags.
    #[allow(non_snake_case)]
    pub fn TRICKMODE() -> (r: Self)
        ensures
            r@ == 0x10,
    {
        SegmentFlags { bits: 0x10 }
    }

    /// The `skip` flags.
    #[allow(non_snake_case)]
    pub fn SKIP() -> (r: Self)
        ensures
            r@ == 0x10,
    {
        SegmentFlags { bits: 0x10 }
    }

    /// The `segment` flags.
    #[allow(non_snake_case)]
    pub fn SEGMENT() -> (r: Self)
        ensures
            r@ == 0x8,
    {
        SegmentFlags { bits: 0x8 }
    }

    /// The `trickmode-key-units` flags.
    #[allow(non_snake_case)]
    pub fn TRICKMODE_KEY_UNITS() -> (r: Self)
        ensures
            r@ == 0x80,
    {
        SegmentFlags { bits: 0x80 }
    }

    /// The `trickmode-forward-predicted` flags.
    #[allow(non_snake_case)]
    pub fn TRICKMODE_FORWARD_PREDICTED() -> (r: Self)
        ensures
            r@ == 0x200,
    {
        SegmentFlags { bits: 0x200 }
    }

    /// The `trickmode-no-audio` flags.
    #[allow(non_snake_case)]
    pub fn TRICKMODE_NO_AUDIO() -> (r: Self)
        ensures
            r@ == 0x100,
    {
        SegmentFlags { bits: 0x100 }
    }

    /// Returns the nicks of the single-bit values set in `self`, in
    /// registration order and each bit once, joined with `+`.
    pub fn serialize(&self) -> (r: String)
        ensures
            r@ == single_bit_serialization(Self::spec_values(), self@).0,
    {
        serialize_single_bit(&Self::values(), self.bits)
    }

    /// Parses a string of nicks joined with `+` (the empty string names no
    /// flag), keeping the bits that name flags of the type. Fails if a nick
    /// is not one of the type's.
    pub fn deserialize(s: &str) -> (r: Result<Self, FlagsParseError>)
        ensures
            r is Err <==> parse_flags_spec(Self::spec_values(), s@) is None,
            r matches Ok(f) ==> f@ == parse_flags_spec(Self::spec_values(), s@)->0
                & Self::spec_all_bits(),
    {
        match parse_flags(&Self::values(), s) {
            Some(b) => Ok(Self::from_bits_truncate(b)),
            None => Err(FlagsParseError),
        }
    }
}

impl core::ops::BitOr for SegmentFlags {
    type Output = SegmentFlags;

    fn bitor(self, rhs: SegmentFlags) -> (r: SegmentFlags) {
        SegmentFlags { bits: self.bits | rhs.bits }
    }
}

impl vstd::std_specs::ops::BitOrSpecImpl for SegmentFlags {
    open spec fn obeys_bitor_spec() -> bool {
        true
    }

    open spec fn bitor_req(self, rhs: SegmentFlags) -> bool {
        true
    }

    open spec fn bitor_spec(self, rhs: SegmentFlags) -> SegmentFlags {
        Self::spec_from_bits(self@ | rhs@)
    }
}

/// The flags of serialization into strings.
#[derive(Clone, Copy, Debug, PartialEq, Eq, Structural, Hash)]
pub struct SerializeFlags {
    bits: u32,
}

impl View for SerializeFlags {
    type V = u32;

    closed spec fn view(&self) -> u32 {
        self.bits
    }
}

impl SerializeFlags {
    /// The bits of all the flags of the type.
    pub open spec fn spec_all_bits() -> u32 {
        0x1
    }

    /// The values registered for the type, in registration order.
    pub open spec fn spec_values() -> Seq<FlagsValue> {
        seq![
            FlagsValue { value: 0x0, nick: "none" },
            FlagsValue { value: 0x1, nick: "backward-compat" }
        ]
    }

    /// The flags with the given bits.
    pub closed spec fn spec_from_bits(bits: u32) -> Self {
        SerializeFlags { bits }
    }

    /// The flags built from `bits` hold `bits`.
    pub broadcast proof fn lemma_from_bits(bits: u32)
        ensures
            #[trigger] Self::spec_from_bits(bits)@ == bits,
    {
    }

    /// Flags holding the same bits are equal.
    pub proof fn lemma_view_injective(a: Self, b: Self)
        requires
            a@ == b@,
        ensures
            a == b,
    {
    }

    /// Returns the values registered for the type, in registration order.
    pub fn values() -> (r: Vec<FlagsValue>)
        ensures
            r@ == Self::spec_values(),
    {
        let r = vec![
            FlagsValue { value: 0x0, nick: "none" },
            FlagsValue { value: 0x1, nick: "backward-compat" }
        ];
        proof {
            assert(r@ =~= Self::spec_values());
        }
        r
    }

    /// Returns the empty set of flags.
    pub fn empty() -> (r: Self)
        ensures
            r@ == 0,
    {
        SerializeFlags { bits: 0 }
    }

    /// Returns the set of all the flags of the type.
    pub fn all() -> (r: Self)
        ensures
            r@ == Self::spec_all_bits(),
    {
        SerializeFlags { bits: 0x1 }
    }

    /// Returns the bits of `self`.
    pub fn bits(&self) -> (r: u32)
        ensures
            r == self@,
    {
        self.bits
    }

    /// Returns the flags of `bits`, dropping the bits that name no flag.
    pub fn from_bits_truncate(bits: u32) -> (r: Self)
        ensures
            r@ == bits & Self::spec_all_bits(),
    {
        SerializeFlags { bits: bits & 0x1 }
    }

    /// Returns the flags of `bits`, or `None` if a bit names no flag.
    pub fn from_bits(bits: u32) -> (r: Option<Self>)
        ensures
            r is Some <==> bits & !Self::spec_all_bits() == 0,
            r matches Some(f) ==> f@ == bits,
    {
        if bits & !0x1 == 0 {
            Some(SerializeFlags { bits })
        } else {
            None
        }
    }

    /// Returns whether all the flags of `other` are set in `self`.
    pub fn contains(&self, other: Self) -> (r: bool)
        ensures
            r == (self@ & other@ == other@),
    {
        self.bits & other.bits == other.bits
    }

    /// Returns whether no flag is set.
    pub fn is_empty(&self) -> (r: bool)
        ensures
            r == (self@ == 0),
    {
        self.bits == 0
    }

    /// Returns the flags set in `self` or in `other`.
    pub fn union(self, other: Self) -> (r: Self)
        ensures
            r@ == self@ | other@,
    {
        SerializeFlags { bits: self.bits | other.bits }
    }

    /// The `backward-compat` flags.
    #[allow(non_snake_case)]
    pub fn BACKWARD_COMPAT() -> (r: Self)
        ensures
            r@ == 0x1,
    {
        SerializeFlags { bits: 0x1 }
    }

    /// Returns the nicks of the single-bit values set in `self`, in
    /// registration order and each bit once, joined with `+`.
    pub fn serialize(&self) -> (r: String)
        ensures
            r@ == single_bit_serialization(Self::spec_values(), self@).0,
    {
        serialize_single_bit(&Self::values(), self.bits)
    }

    /// Parses a string of nicks joined with `+` (the empty string names no
    /// flag), keeping the bits that name flags of the type. Fails if a nick
    /// is not one of the type's.
    pub fn deserialize(s: &str) -> (r: Result<Self, FlagsParseError>)
        ensures
            r is Err <==> parse_flags_spec(Self::spec_values(), s@) is None,
            r matches Ok(f) ==> f@ == parse_flags_spec(Self::spec_values(), s@)->0
                & Self::spec_all_bits(),
    {
        match parse_flags(&Self::values(), s) {
            Some(b) => Ok(Self::from_bits_truncate(b)),
            None => Err(FlagsParseError),
        }
    }
}

impl core::ops::BitOr for SerializeFlags {
    type Output = SerializeFlags;

    fn bitor(self, rhs: SerializeFlags) -> (r: SerializeFlags) {
        SerializeFlags { bits: self.bits | rhs.bits }
    }
}

impl vstd::std_specs::ops::BitOrSpecImpl for SerializeFlags {
    open spec fn obeys_bitor_spec() -> bool {
        true
    }

    open spec fn bitor_req(self, rhs: SerializeFlags) -> bool {
        true
    }

    open spec fn bitor_spec(self, rhs: SerializeFlags) -> SerializeFlags {
        Self::spec_from_bits(self@ | rhs@)
    }
}

/// The detail of a stack trace.
#[derive(Clone, Copy, Debug, PartialEq, Eq, Structural, Hash)]
pub struct StackTraceFlags {
    bits: u32,
}

impl View for StackTraceFlags {
    type V = u32;

    closed spec fn view(&self) -> u32 {
        self.bits
    }
}

impl StackTraceFlags {
    /// The bits of all the flags of the type.
    pub open spec fn spec_all_bits() -> u32 {
        0x1
    }

    /// The values registered for the type, in registration order.
    pub open spec fn spec_values() -> Seq<FlagsValue> {
        seq![
            FlagsValue { value: 0x0, nick: "none" },
            FlagsValue { value: 0x1, nick: "full" }
        ]
    }

    /// The flags with the given bits.
    pub closed spec fn spec_from_bits(bits: u32) -> Self {
        StackTraceFlags { bits }
    }

    /// The flags built from `bits` hold `bits`.
    pub broadcast proof fn lemma_from_bits(bits: u32)
        ensures
            #[trigger] Self::spec_from_bits(bits)@ == bits,
    {
    }

    /// Flags holding the same bits are equal.
    pub proof fn lemma_view_injective(a: Self, b: Self)
        requires
            a@ == b@,
        ensures
            a == b,
    {
    }

    /// Returns the values registered for the type, in registration order.
    pub fn values() -> (r: Vec<FlagsValue>)
        ensures
            r@ == Self::spec_values(),
    {
        let r = vec![
            FlagsValue { value: 0x0, nick: "none" },
            FlagsValue { value: 0x1, nick: "full" }
        ];
        proof {
            assert(r@ =~= Self::spec_values());
        }
        r
    }

    /// Returns the empty set of flags.
    pub fn empty() -> (r: Self)
        ensures
            r@ == 0,
    {
        StackTraceFlags { bits: 0 }
    }

    /// Returns the set of all the flags of the type.
    pub fn all() -> (r: Self)
        ensures
            r@ == Self::spec_all_bits(),
    {
        StackTraceFlags { bits: 0x1 }
    }

    /// Returns the bits of `self`.
    pub fn bits(&self) -> (r: u32)
        ensures
            r == self@,
    {
        self.bits
    }

    /// Returns the flags of `bits`, dropping the bits that name no flag.
    pub fn from_bits_truncate(bits: u32) -> (r: Self)
        ensures
            r@ == bits & Self::spec_all_bits(),
    {
        StackTraceFlags { bits: bits & 0x1 }
    }

    /// Returns the flags of `bits`, or `None` if a bit names no flag.
    pub fn from_bits(bits: u32) -> (r: Option<Self>)
        ensures
            r is Some <==> bits & !Self::spec_all_bits() == 0,
            r matches Some(f) ==> f@ == bits,
    {
        if bits & !0x1 == 0 {
            Some(StackTraceFlags { bits })
        } else {
            None
        }
    }

    /// Returns whether all the flags of `other` are set in `self`.
    pub fn contains(&self, other: Self) -> (r: bool)
        ensures
            r == (self@ & other@ == other@),
    {
        self.bits & other.bits == other.bits
    }

    /// Returns whether no flag is set.
    pub fn is_empty(&self) -> (r: bool)
        ensures
            r == (self@ == 0),
    {
        self.bits == 0
    }

    /// Returns the flags set in `self` or in `other`.
    pub fn union(self, other: Self) -> (r: Self)
        ensures
            r@ == self@ | other@,
    {
        StackTraceFlags { bits: self.bits | other.bits }
    }

    /// The `full` flags.
    #[allow(non_snake_case)]
    pub fn FULL() -> (r: Self)
        ensures
            r@ == 0x1,
    {
        StackTraceFlags { bits: 0x1 }
    }

    /// Returns the nicks of the single-bit values set in `self`, in
    /// registration order and each bit once, joined with `+`.
    pub fn serialize(&self) -> (r: String)
        ensures
            r@ == single_bit_serialization(Self::spec_values(), self@).0,
    {
        serialize_single_bit(&Self::values(), self.bits)
    }

    /// Parses a string of nicks joined with `+` (the empty string names no
    /// flag), keeping the bits that name flags of the type. Fails if a nick
    /// is not one of the type's.
    pub fn deserialize(s: &str) -> (r: Result<Self, FlagsParseError>)
        ensures
            r is Err <==> parse_flags_spec(Self::spec_values(), s@) is None,
            r matches Ok(f) ==> f@ == parse_flags_spec(Self::spec_values(), s@)->0
                & Self::spec_all_bits(),
    {
        match parse_flags(&Self::values(), s) {
            Some(b) => Ok(Self::from_bits_truncate(b)),
            None => Err(FlagsParseError),
        }
    }
}

impl core::ops::BitOr for StackTraceFlags {
    type Output = StackTraceFlags;

    fn bitor(self, rhs: StackTraceFlags) -> (r: StackTraceFlags) {
        StackTraceFlags { bits: self.bits | rhs.bits }
    }
}

impl vstd::std_specs::ops::BitOrSpecImpl for StackTraceFlags {
    open spec fn obeys_bitor_spec() -> bool {
        true
    }

    open spec fn bitor_req(self, rhs: StackTraceFlags) -> bool {
        true
    }

    open spec fn bitor_spec(self, rhs: StackTraceFlags) -> StackTraceFlags {
        Self::spec_from_bits(self@ | rhs@)
    }
}

/// The flags of a stream.
#[derive(Clone, Copy, Debug, PartialEq, Eq, Structural, Hash)]
pub struct StreamFlags {
    bits: u32,
}

impl View for StreamFlags {
    type V = u32;

    closed spec fn view(&self) -> u32 {
        self.bits
    }
}

impl StreamFlags {
    /// The bits of all the flags of the type.
    pub open spec fn spec_all_bits() -> u32 {
        0x7
    }

    /// The values registered for the type, in registration order.
    pub open spec fn spec_values() -> Seq<FlagsValue> {
        seq![
            FlagsValue { value: 0x0, nick: "none" },
            FlagsValue { value: 0x1, nick: "sparse" },
            FlagsValue { value: 0x2, nick: "select" },
            FlagsValue { value: 0x4, nick: "unselect" }
        ]
    }

    /// The flags with the given bits.
    pub closed spec fn spec_from_bits(bits: u32) -> Self {
        StreamFlags { bits }
    }

    /// The flags built from `bits` hold `bits`.
    pub broadcast proof fn lemma_from_bits(bits: u32)
        ensures
            #[trigger] Self::spec_from_bits(bits)@ == bits,
    {
    }

    /// Flags holding the same bits are equal.
    pub proof fn lemma_view_injective(a: Self, b: Self)
        requires
            a@ == b@,
        ensures
            a == b,
    {
    }

    /// Returns the values registered for the type, in registration order.
    pub fn values() -> (r: Vec<FlagsValue>)
        ensures
            r@ == Self::spec_values(),
    {
        let r = vec![
            FlagsValue { value: 0x0, nick: "none" },
            FlagsValue { value: 0x1, nick: "sparse" },
            FlagsValue { value: 0x2, nick: "select" },
            FlagsValue { value: 0x4, nick: "unselect" }
        ];
        proof {
            assert(r@ =~= Self::spec_values());
        }
        r
    }

    /// Returns the empty set of flags.
    pub fn empty() -> (r: Self)
        ensures
            r@ == 0,
    {
        StreamFlags { bits: 0 }
    }

    /// Returns the set of all the flags of the type.
    pub fn all() -> (r: Self)
        ensures
            r@ == Self::spec_all_bits(),
    {
        StreamFlags { bits: 0x7 }
    }

    /// Returns the bits of `self`.
    pub fn bits(&self) -> (r: u32)
        ensures
            r == self@,
    {
        self.bits
    }

    /// Returns the flags of `bits`, dropping the bits that name no flag.
    pub fn from_bits_truncate(bits: u32) -> (r: Self)
        ensures
            r@ == bits & Self::spec_all_bits(),
    {
        StreamFlags { bits: bits & 0x7 }
    }

    /// Returns the flags of `bits`, or `None` if a bit names no flag.
    pub fn from_bits(bits: u32) -> (r: Option<Self>)
        ensures
            r is Some <==> bits & !Self::spec_all_bits() == 0,
            r matches Some(f) ==> f@ == bits,
    {
        if bits & !0x7 == 0 {
            Some(StreamFlags { bits })
        } else {
            None
        }
    }

    /// Returns whether all the flags of `other` are set in `self`.
    pub fn contains(&self, other: Self) -> (r: bool)
        ensures
            r == (self@ & other@ == other@),
    {
        self.bits & other.bits == other.bits
    }

    /// Returns whether no flag is set.
    pub fn is_empty(&self) -> (r: bool)
        ensures
            r == (self@ == 0),
    {
        self.bits == 0
    }

    /// Returns the flags set in `self` or in `other`.
    pub fn union(self, other: Self) -> (r: Self)
        ensures
            r@ == self@ | other@,
    {
        StreamFlags { bits: self.bits | other.bits }
    }

    /// The `sparse` flags.
    #[allow(non_snake_case)]
    pub fn SPARSE() -> (r: Self)
        ensures
            r@ == 0x1,
    {
        StreamFlags { bits: 0x1 }
    }

    /// The `select` flags.
    #[allow(non_snake_case)]
    pub fn SELECT() -> (r: Self)
        ensures
            r@ == 0x2,
    {
        StreamFlags { bits: 0x2 }
    }

    /// The `unselect` flags.
    #[allow(non_snake_case)]
    pub fn UNSELECT() -> (r: Self)
        ensures
            r@ == 0x4,
    {
        StreamFlags { bits: 0x4 }
    }

    /// Returns the nicks of the single-bit values set in `self`, in
    /// registration order and each bit once, joined with `+`.
    pub fn serialize(&self) -> (r: String)
        ensures
            r@ == single_bit_serialization(Self::spec_values(), self@).0,
    {
        serialize_single_bit(&Self::values(), self.bits)
    }

    /// Parses a string of nicks joined with `+` (the empty string names no
    /// flag), keeping the bits that name flags of the type. Fails if a nick
    /// is not one of the type's.
    pub fn deserialize(s: &str) -> (r: Result<Self, FlagsParseError>)
        ensures
            r is Err <==> parse_flags_spec(Self::spec_values(), s@) is None,
            r matches Ok(f) ==> f@ == parse_flags_spec(Self::spec_values(), s@)->0
                & Self::spec_all_bits(),
    {
        match parse_flags(&Self::values(), s) {
            Some(b) => Ok(Self::from_bits_truncate(b)),
            None => Err(FlagsParseError),
        }
    }
}

impl core::ops::BitOr for StreamFlags {
    type Output = StreamFlags;

    fn bitor(self, rhs: StreamFlags) -> (r: StreamFlags) {
        StreamFlags { bits: self.bits | rhs.bits }
    }
}

impl vstd::std_specs::ops::BitOrSpecImpl for StreamFlags {
    open spec fn obeys_bitor_spec() -> bool {
        true
    }

    open spec fn bitor_req(self, rhs: StreamFlags) -> bool {
        true
    }

    open spec fn bitor_spec(self, rhs: StreamFlags) -> StreamFlags {
        Self::spec_from_bits(self@ | rhs@)
    }
}

/// The kinds of a stream.
#[derive(Clone, Copy, Debug, PartialEq, Eq, Structural, Hash)]
pub struct StreamType {
    bits: u32,
}

impl View for StreamType {
    type V = u32;

    closed spec fn view(&self) -> u32 {
        self.bits
    }
}

impl StreamType {
    /// The bits of all the flags of the type.
    pub open spec fn spec_all_bits() -> u32 {
        0x1f
    }

    /// The values registered for the type, in registration order.
    pub open spec fn spec_values() -> Seq<FlagsValue> {
        seq![
            FlagsValue { value: 0x1, nick: "unknown" },
            FlagsValue { value: 0x2, nick: "audio" },
            FlagsValue { value: 0x4, nick: "video" },
            FlagsValue { value: 0x8, nick: "container" },
            FlagsValue { value: 0x10, nick: "text" }
        ]
    }

    /// The flags with the given bits.
    pub closed spec fn spec_from_bits(bits: u32) -> Self {
        StreamType { bits }
    }

    /// The flags built from `bits` hold `bits`.
    pub broadcast proof fn lemma_from_bits(bits: u32)
        ensures
            #[trigger] Self::spec_from_bits(bits)@ == bits,
    {
    }

    /// Flags holding the same bits are equal.
    pub proof fn lemma_view_injective(a: Self, b: Self)
        requires
            a@ == b@,
        ensures
            a == b,
    {
    }

    /// Returns the values registered for the type, in registration order.
    pub fn values() -> (r: Vec<FlagsValue>)
        ensures
            r@ == Self::spec_values(),
    {
        let r = vec![
            FlagsValue { value: 0x1, nick: "unknown" },
            FlagsValue { value: 0x2, nick: "audio" },
            FlagsValue { value: 0x4, nick: "video" },
            FlagsValue { value: 0x8, nick: "container" },
            FlagsValue { value: 0x10, nick: "text" }
        ];
        proof {
            assert(r@ =~= Self::spec_values());
        }
        r
    }

    /// Returns the empty set of flags.
    pub fn empty() -> (r: Self)
        ensures
            r@ == 0,
    {
        StreamType { bits: 0 }
    }

    /// Returns the set of all the flags of the type.
    pub fn all() -> (r: Self)
        ensures
            r@ == Self::spec_all_bits(),
    {
        StreamType { bits: 0x1f }
    }

    /// Returns the bits of `self`.
    pub fn bits(&self) -> (r: u32)
        ensures
            r == self@,
    {
        self.bits
    }

    /// Returns the flags of `bits`, dropping the bits that name no flag.
    pub fn from_bits_truncate(bits: u32) -> (r: Self)
        ensures
            r@ == bits & Self::spec_all_bits(),
    {
        StreamType { bits: bits & 0x1f }
    }

    /// Returns the flags of `bits`, or `None` if a bit names no flag.
    pub fn from_bits(bits: u32) -> (r: Option<Self>)
        ensures
            r is Some <==> bits & !Self::spec_all_bits() == 0,
            r matches Some(f) ==> f@ == bits,
    {
        if bits & !0x1f == 0 {
            Some(StreamType { bits })
        } else {
            None
        }
    }

    /// Returns whether all the flags of `other` are set in `self`.
    pub fn contains(&self, other: Self) -> (r: bool)
        ensures
            r == (self@ & other@ == other@),
    {
        self.bits & other.bits == other.bits
    }

    /// Returns whether no flag is set.
    pub fn is_empty(&self) -> (r: bool)
        ensures
            r == (self@ == 0),
    {
        self.bits == 0
    }

    /// Returns the flags set in `self` or in `other`.
    pub fn union(self, other: Self) -> (r: Self)
        ensures
            r@ == self@ | other@,
    {
        StreamType { bits: self.bits | other.bits }
    }

    /// The `unknown` flags.
    #[allow(non_snake_case)]
    pub fn UNKNOWN() -> (r: Self)
        ensures
            r@ == 0x1,
    {
        StreamType { bits: 0x1 }
    }

    /// The `audio` flags.
    #[allow(non_snake_case)]
    pub fn AUDIO() -> (r: Self)
        ensures
            r@ == 0x2,
    {
        StreamType { bits: 0x2 }
    }

    /// The `video` flags.
    #[allow(non_snake_case)]
    pub fn VIDEO() -> (r: Self)
        ensures
            r@ == 0x4,
    {
        StreamType { bits: 0x4 }
    }

    /// The `container` flags.
    #[allow(non_snake_case)]
    pub fn CONTAINER() -> (r: Self)
        ensures
            r@ == 0x8,
    {
        StreamType { bits: 0x8 }
    }

    /// The `text` flags.
    #[allow(non_snake_case)]
    pub fn TEXT() -> (r: Self)
        ensures
            r@ == 0x10,
    {
        StreamType { bits: 0x10 }
    }

    /// Returns the nicks of the single-bit values set in `self`, in
    /// registration order and each bit once, joined with `+`.
    pub fn serialize(&self) -> (r: String)
        ensures
            r@ == single_bit_serialization(Self::spec_values(), self@).0,
    {
        serialize_single_bit(&Self::values(), self.bits)
    }

    /// Parses a string of nicks joined with `+` (the empty string names no
    /// flag), keeping the bits that name flags of the type. Fails if a nick
    /// is not one of the type's.
    pub fn deserialize(s: &str) -> (r: Result<Self, FlagsParseError>)
        ensures
            r is Err <==> parse_flags_spec(Self::spec_values(), s@) is None,
            r matches Ok(f) ==> f@ == parse_flags_spec(Self::spec_values(), s@)->0
                & Self::spec_all_bits(),
    {
        match parse_flags(&Self::values(), s) {
            Some(b) => Ok(Self::from_bits_truncate(b)),
            None => Err(FlagsParseError),
        }
    }
}

impl core::ops::BitOr for StreamType {
    type Output = StreamType;

    fn bitor(self, rhs: StreamType) -> (r: StreamType) {
        StreamType { bits: self.bits | rhs.bits }
    }
}

impl vstd::std_specs::ops::BitOrSpecImpl for StreamType {
    open spec fn obeys_bitor_spec() -> bool {
        true
    }

    open spec fn bitor_req(self, rhs: StreamType) -> bool {
        true
    }

    open spec fn bitor_spec(self, rhs: StreamType) -> StreamType {
        Self::spec_from_bits(self@ | rhs@)
    }
}

} // verus!
