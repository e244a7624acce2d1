//! The target description: the sizes of the arithmetic types, of pointers,
//! the alignment rule and the byte order.

use vstd::prelude::*;

verus! {

/// The conversion ranks of the integer types, lowest first.
#[derive(Clone, Copy, Debug, PartialEq, Eq, Structural)]
pub enum IntRank {
    Char,
    Short,
    Int,
    Long,
    LongLong,
}

impl IntRank {
    /// The position of a rank in the order of ranks.
    pub open spec fn level(self) -> nat {
        match self {
            IntRank::Char => 0,
            IntRank::Short => 1,
            IntRank::Int => 2,
            IntRank::Long => 3,
            IntRank::LongLong => 4,
        }
    }

    pub fn index(self) -> (n: u8)
        ensures
            n == self.level(),
    {
        match self {
            IntRank::Char => 0,
            IntRank::Short => 1,
            IntRank::Int => 2,
            IntRank::Long => 3,
            IntRank::LongLong => 4,
        }
    }
}

/// The facts about a compilation target that the analysis and the folding
/// of constants depend on. Sizes are in bytes of eight bits.
#[derive(Clone, Copy, Debug, PartialEq, Eq, Structural)]
pub struct Target {
    pub char_signed: bool,
    pub short_bytes: u8,
    pub int_bytes: u8,
    pub long_bytes: u8,
    pub long_long_bytes: u8,
    pub pointer_bytes: u8,
    pub max_align: u8,
    pub big_endian: bool,
}

/// Whether a number of bytes is one of the sizes an integer type can have.
pub open spec fn valid_size(n: u8) -> bool {
    n == 1 || n == 2 || n == 4 || n == 8
}

impl Target {
    /// A description is well formed if every size is a power of two of at
    /// most eight bytes, the sizes do not shrink as the rank grows, `short`
    /// and `int` have at least two bytes, `long` at least four and
    /// `long long` eight.
    pub open spec fn wf(self) -> bool {
        &&& valid_size(self.short_bytes)
        &&& valid_size(self.int_bytes)
        &&& valid_size(self.long_bytes)
        &&& valid_size(self.pointer_bytes)
        &&& valid_size(self.max_align)
        &&& 2 <= self.short_bytes <= self.int_bytes <= self.long_bytes <= self.long_long_bytes
        &&& 4 <= self.long_bytes
        &&& self.long_long_bytes == 8
        &&& 2 <= self.pointer_bytes
    }

    /// The size in bytes of the integer types of a rank.
    pub open spec fn bytes_of(self, rank: IntRank) -> u8 {
        match rank {
            IntRank::Char => 1,
            IntRank::Short => self.short_bytes,
            IntRank::Int => self.int_bytes,
            IntRank::Long => self.long_bytes,
            IntRank::LongLong => self.long_long_bytes,
        }
    }

    /// The width in bits of the integer types of a rank.
    pub open spec fn bits_of(self, rank: IntRank) -> u8 {
        (8 * self.bytes_of(rank)) as u8
    }

    /// The alignment of an object of scalar type with the given size: its
    /// size, capped by the target's largest alignment.
    pub open spec fn align_of(self, size: u8) -> u8 {
        if size <= self.max_align {
            size
        } else {
            self.max_align
        }
    }

    pub fn is_valid(&self) -> (b: bool)
        ensures
            b == self.wf(),
    {
        size_is_valid(self.short_bytes) && size_is_valid(self.int_bytes) && size_is_valid(
            self.long_bytes,
        ) && size_is_valid(self.pointer_bytes) && size_is_valid(self.max_align) && 2
            <= self.short_bytes && self.short_bytes <= self.int_bytes && self.int_bytes
            <= self.long_bytes && self.long_bytes <= self.long_long_bytes && 4 <= self.long_bytes
            && self.long_long_bytes == 8 && 2 <= self.pointer_bytes
    }

    pub fn bytes(&self, rank: IntRank) -> (n: u8)
        ensures
            n == self.bytes_of(rank),
    {
        match rank {
            IntRank::Char => 1,
            IntRank::Short => self.short_bytes,
            IntRank::Int => self.int_bytes,
            IntRank::Long => self.long_bytes,
            IntRank::LongLong => self.long_long_bytes,
        }
    }

    pub fn bits(&self, rank: IntRank) -> (n: u8)
        requires
            self.wf(),
        ensures
            n == self.bits_of(rank),
            n == 8 || n == 16 || n == 32 || n == 64,
    {
        8 * self.bytes(rank)
    }

    pub fn align(&self, size: u8) -> (n: u8)
        ensures
            n == self.align_of(size),
    {
        if size <= self.max_align {
            size
        } else {
            self.max_align
        }
    }

    /// A 64-bit target on which `long` and pointers have eight bytes.
    pub fn lp64() -> (t: Target)
        ensures
            t.wf(),
            t == (Target {
                char_signed: true,
                short_bytes: 2,
                int_bytes: 4,
                long_bytes: 8,
                long_long_bytes: 8,
                pointer_bytes: 8,
                max_align: 8,
                big_endian: false,
            }),
    {
        Target {
            char_signed: true,
            short_bytes: 2,
            int_bytes: 4,
            long_bytes: 8,
            long_long_bytes: 8,
            pointer_bytes: 8,
            max_align: 8,
            big_endian: false,
        }
    }

    /// A 32-bit target on which `int`, `long` and pointers have four bytes.
    pub fn ilp32() -> (t: Target)
        ensures
            t.wf(),
            t == (Target {
                char_signed: true,
                short_bytes: 2,
                int_bytes: 4,
                long_bytes: 4,
                long_long_bytes: 8,
                pointer_bytes: 4,
                max_align: 4,
                big_endian: false,
            }),
    {
        Target {
            char_signed: true,
            short_bytes: 2,
            int_bytes: 4,
            long_bytes: 4,
            long_long_bytes: 8,
            pointer_bytes: 4,
            max_align: 4,
            big_endian: false,
        }
    }
}

pub fn size_is_valid(n: u8) -> (b: bool)
    ensures
        b == valid_size(n),
{
    n == 1 || n == 2 || n == 4 || n == 8
}

} // verus!
