//! Sets of options that pick, search and order task lists, kept as bits of a
//! `u32`.

use vstd::prelude::*;

verus! {

/// Whether every bit of `flag` is set in `bits`.
pub open spec fn has_bits(bits: u32, flag: u32) -> bool {
    bits & flag == flag
}

/// A flag of a single bit.
pub open spec fn single_bit(flag: u32) -> bool {
    flag != 0 && flag & ((flag - 1) as u32) == 0
}

/// Flipping the same bits twice gives back what one started from.
pub proof fn lemma_toggle_twice(bits: u32, flag: u32)
    ensures
        (bits ^ flag) ^ flag == bits,
{
    assert((bits ^ flag) ^ flag == bits) by (bit_vector);
}

/// Flipping a single bit sets it exactly when it was clear, and leaves every
/// other bit as it was.
pub proof fn lemma_toggle_flips(bits: u32, flag: u32, other: u32)
    requires
        single_bit(flag),
        other & flag == 0,
    ensures
        has_bits(bits ^ flag, flag) == !has_bits(bits, flag),
        has_bits(bits ^ flag, other) == has_bits(bits, other),
{
    assert(flag != 0 && flag & ((flag - 1) as u32) == 0 ==> ((bits ^ flag) & flag == flag) == !(bits & flag
        == flag)) by (bit_vector);
    assert(other & flag == 0 ==> (((bits ^ flag) & other == other) == (bits & other == other)))
        by (bit_vector);
}

/// Which tasks a list shows.
#[derive(Clone, Copy, Debug, PartialEq, Eq, Hash, Structural)]
pub struct TaskFilterFlags {
    bits: u32,
}

/// The bit of each filter option.
pub const FILTER_ACTIVE: u32 = 0x1;
pub const FILTER_INACTIVE: u32 = 0x2;
pub const FILTER_PRIORITY_LOW: u32 = 0x4;
pub const FILTER_PRIORITY_MIDDLE: u32 = 0x8;
pub const FILTER_PRIORITY_HIGH: u32 = 0x10;
pub const FILTER_STATUS_PENDING: u32 = 0x20;
pub const FILTER_STATUS_WIP: u32 = 0x40;
pub const FILTER_STATUS_COMPLETE: u32 = 0x80;
pub const FILTER_STATUS_CANCELED: u32 = 0x100;
/// Every filter option.
pub const FILTER_ALL: u32 = 0x1ff;

impl View for TaskFilterFlags {
    type V = u32;

    closed spec fn view(&self) -> u32 {
        self.bits
    }
}

impl TaskFilterFlags {
    /// The options whose bits are `bits`, unknown bits dropped.
    pub fn from_bits_truncate(bits: u32) -> (r: Self)
        ensures
            r@ == bits & FILTER_ALL,
    {
        TaskFilterFlags { bits: bits & FILTER_ALL }
    }

    /// No option.
    pub fn empty() -> (r: Self)
        ensures
            r@ == 0,
    {
        TaskFilterFlags { bits: 0 }
    }

    /// Every option.
    pub fn all() -> (r: Self)
        ensures
            r@ == FILTER_ALL,
    {
        TaskFilterFlags { bits: FILTER_ALL }
    }

    /// The bits of the options that are set.
    pub fn bits(&self) -> (r: u32)
        ensures
            r == self@,
    {
        self.bits
    }

    /// Whether every option of `other` is set.
    pub fn contains(&self, other: Self) -> (r: bool)
        ensures
            r == has_bits(self@, other@),
    {
        self.bits & other.bits == other.bits
    }

    /// The options set in either.
    pub fn union(self, other: Self) -> (r: Self)
        ensures
            r@ == self@ | other@,
    {
        TaskFilterFlags { bits: self.bits | other.bits }
    }

    /// The options set here and not in `other`.
    pub fn difference(self, other: Self) -> (r: Self)
        ensures
            r@ == self@ & !other@,
    {
        TaskFilterFlags { bits: self.bits & !other.bits }
    }

    /// The options set in exactly one of the two.
    pub fn symmetric_difference(self, other: Self) -> (r: Self)
        ensures
            r@ == self@ ^ other@,
    {
        TaskFilterFlags { bits: self.bits ^ other.bits }
    }

    /// Flips the options of `other`.
    pub fn toggle(&mut self, other: Self)
        ensures
            final(self)@ == old(self)@ ^ other@,
    {
        self.bits = self.bits ^ other.bits;
    }
}

impl Default for TaskFilterFlags {
    fn default() -> (r: Self)
        ensures
            r@ == 0,
    {
        TaskFilterFlags { bits: 0 }
    }
}

/// How a list is ordered.
#[derive(Clone, Copy, Debug, PartialEq, Eq, Hash, Structural)]
pub struct TaskOrderFlags {
    bits: u32,
}

/// The bit of each ordering option.
pub const ORDER_BY_STATUS: u32 = 0x1;
pub const ORDER_BY_START_DATE: u32 = 0x2;
pub const ORDER_BY_DUE_DATE: u32 = 0x4;
pub const ORDER_BY_ENTRY_DATE: u32 = 0x8;
pub const ORDER_BY_END_DATE: u32 = 0x10;
pub const ORDER_BY_PRIORITY: u32 = 0x20;
pub const ORDER_BY_PROGRESS: u32 = 0x40;
pub const ORDER_BY_TIME_SPENT: u32 = 0x80;
pub const ORDER_REVERSED: u32 = 0x100;
/// Every ordering option.
pub const ORDER_ALL: u32 = 0x1ff;

impl View for TaskOrderFlags {
    type V = u32;

    closed spec fn view(&self) -> u32 {
        self.bits
    }
}

impl TaskOrderFlags {
    /// The options whose bits are `bits`, unknown bits dropped.
    pub fn from_bits_truncate(bits: u32) -> (r: Self)
        ensures
            r@ == bits & ORDER_ALL,
    {
        TaskOrderFlags { bits: bits & ORDER_ALL }
    }

    /// No option.
    pub fn empty() -> (r: Self)
        ensures
            r@ == 0,
    {
        TaskOrderFlags { bits: 0 }
    }

    /// The bits of the options that are set.
    pub fn bits(&self) -> (r: u32)
        ensures
            r == self@,
    {
        self.bits
    }

    /// Whether every option of `other` is set.
    pub fn contains(&self, other: Self) -> (r: bool)
        ensures
            r == has_bits(self@, other@),
    {
        self.bits & other.bits == other.bits
    }

    /// The options set in either.
    pub fn union(self, other: Self) -> (r: Self)
        ensures
            r@ == self@ | other@,
    {
        TaskOrderFlags { bits: self.bits | other.bits }
    }

    /// Flips the options of `other`.
    pub fn toggle(&mut self, other: Self)
        ensures
            final(self)@ == old(self)@ ^ other@,
    {
        self.bits = self.bits ^ other.bits;
    }
}

impl Default for TaskOrderFlags {
    fn default() -> (r: Self)
        ensures
            r@ == 0,
    {
        TaskOrderFlags { bits: 0 }
    }
}

/// Which fields a text search looks at, and how.
#[derive(Clone, Copy, Debug, PartialEq, Eq, Hash, Structural)]
pub struct TaskSearchFlags {
    bits: u32,
}

/// The bit of each search option.
pub const SEARCH_TITLE: u32 = 0x1;
pub const SEARCH_PROJECT: u32 = 0x2;
pub const SEARCH_DETAIL: u32 = 0x4;
pub const SEARCH_ENABLE_REGEX: u32 = 0x8;
/// Every search option.
pub const SEARCH_ALL: u32 = 0xf;

impl View for TaskSearchFlags {
    type V = u32;

    closed spec fn view(&self) -> u32 {
        self.bits
    }
}

impl TaskSearchFlags {
    /// The options whose bits are `bits`, unknown bits dropped.
    pub fn from_bits_truncate(bits: u32) -> (r: Self)
        ensures
            r@ == bits & SEARCH_ALL,
    {
        TaskSearchFlags { bits: bits & SEARCH_ALL }
    }

    /// No option.
    pub fn empty() -> (r: Self)
        ensures
            r@ == 0,
    {
        TaskSearchFlags { bits: 0 }
    }

    /// The bits of the options that are set.
    pub fn bits(&self) -> (r: u32)
        ensures
            r == self@,
    {
        self.bits
    }

    /// Whether every option of `other` is set.
    pub fn contains(&self, other: Self) -> (r: bool)
        ensures
            r == has_bits(self@, other@),
    {
        self.bits & other.bits == other.bits
    }

    /// Flips the options of `other`.
    pub fn toggle(&mut self, other: Self)
        ensures
            final(self)@ == old(self)@ ^ other@,
    {
        self.bits = self.bits ^ other.bits;
    }
}

impl Default for TaskSearchFlags {
    fn default() -> (r: Self)
        ensures
            r@ == 0,
    {
        TaskSearchFlags { bits: 0 }
    }
}

} // verus!
