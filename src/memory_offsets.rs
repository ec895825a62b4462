use vstd::prelude::*;
use crate::registers::SegmentRegister;

verus! {

/// A 64-bit immediate value.
#[derive(Debug, Clone, Copy, PartialEq, Eq, Structural)]
pub struct Immediate64Bit(pub i64);

impl Default for Immediate64Bit {
    fn default() -> (r: Self)
        ensures
            r.0 == 0,
    {
        Immediate64Bit(0)
    }
}

/// A 16-bit memory offset, with or without a segment register.
#[derive(Debug, Clone, Copy, PartialEq, Eq, Structural)]
pub enum MemoryOffset16Bit {
    /// `segment:offset` form; the segment is ignored in 64-bit mode.
    SegmentOffsetForm16(SegmentRegister, Immediate64Bit),
    /// `offset` form.
    OffsetForm16(Immediate64Bit),
}

pub open spec fn memory_offset_offset(m: MemoryOffset16Bit) -> Immediate64Bit {
    match m {
        MemoryOffset16Bit::SegmentOffsetForm16(_, immediate) => immediate,
        MemoryOffset16Bit::OffsetForm16(immediate) => immediate,
    }
}

pub open spec fn memory_offset_segment(m: MemoryOffset16Bit) -> Option<SegmentRegister> {
    match m {
        MemoryOffset16Bit::SegmentOffsetForm16(segment_register, _) => Some(segment_register),
        MemoryOffset16Bit::OffsetForm16(_) => None,
    }
}

impl MemoryOffset16Bit {
    pub fn get_segment_register(&self) -> (r: Option<SegmentRegister>)
        ensures
            r == memory_offset_segment(*self),
    {
        match *self {
            MemoryOffset16Bit::SegmentOffsetForm16(segment_register, _) => Some(segment_register),
            MemoryOffset16Bit::OffsetForm16(_) => None,
        }
    }

    pub fn get_offset(&self) -> (r: Immediate64Bit)
        ensures
            r == memory_offset_offset(*self),
    {
        match *self {
            MemoryOffset16Bit::SegmentOffsetForm16(_, immediate) => immediate,
            MemoryOffset16Bit::OffsetForm16(immediate) => immediate,
        }
    }

    /// The offset as an unsigned displacement (two's complement of the
    /// immediate).
    pub fn displacement(self) -> (r: u64)
        ensures
            r == memory_offset_offset(self).0 as u64,
    {
        #[verifier::truncate]
        (self.get_offset().0 as u64)
    }
}

impl Default for MemoryOffset16Bit {
    fn default() -> (r: Self)
        ensures
            r == MemoryOffset16Bit::OffsetForm16(Immediate64Bit(0)),
    {
        MemoryOffset16Bit::OffsetForm16(Immediate64Bit::default())
    }
}

impl From<(SegmentRegister, Immediate64Bit)> for MemoryOffset16Bit {
    fn from(value: (SegmentRegister, Immediate64Bit)) -> (r: Self) {
        MemoryOffset16Bit::SegmentOffsetForm16(value.0, value.1)
    }
}

impl vstd::std_specs::convert::FromSpecImpl<(SegmentRegister, Immediate64Bit)> for MemoryOffset16Bit {
    open spec fn obeys_from_spec() -> bool {
        true
    }

    open spec fn from_spec(value: (SegmentRegister, Immediate64Bit)) -> MemoryOffset16Bit {
        MemoryOffset16Bit::SegmentOffsetForm16(value.0, value.1)
    }
}

impl From<(Option<SegmentRegister>, Immediate64Bit)> for MemoryOffset16Bit {
    fn from(value: (Option<SegmentRegister>, Immediate64Bit)) -> (r: Self) {
        match value.0 {
            Some(segment_register) => MemoryOffset16Bit::SegmentOffsetForm16(segment_register, value.1),
            None => MemoryOffset16Bit::OffsetForm16(value.1),
        }
    }
}

impl vstd::std_specs::convert::FromSpecImpl<(Option<SegmentRegister>, Immediate64Bit)> for MemoryOffset16Bit {
    open spec fn obeys_from_spec() -> bool {
        true
    }

    open spec fn from_spec(value: (Option<SegmentRegister>, Immediate64Bit)) -> MemoryOffset16Bit {
        match value.0 {
            Some(segment_register) => MemoryOffset16Bit::SegmentOffsetForm16(segment_register, value.1),
            None => MemoryOffset16Bit::OffsetForm16(value.1),
        }
    }
}

impl From<Immediate64Bit> for MemoryOffset16Bit {
    fn from(value: Immediate64Bit) -> (r: Self) {
        MemoryOffset16Bit::OffsetForm16(value)
    }
}

impl vstd::std_specs::convert::FromSpecImpl<Immediate64Bit> for MemoryOffset16Bit {
    open spec fn obeys_from_spec() -> bool {
        true
    }

    open spec fn from_spec(value: Immediate64Bit) -> MemoryOffset16Bit {
        MemoryOffset16Bit::OffsetForm16(value)
    }
}

impl From<i64> for MemoryOffset16Bit {
    fn from(value: i64) -> (r: Self) {
        MemoryOffset16Bit::OffsetForm16(Immediate64Bit(value))
    }
}

impl vstd::std_specs::convert::FromSpecImpl<i64> for MemoryOffset16Bit {
    open spec fn obeys_from_spec() -> bool {
        true
    }

    open spec fn from_spec(value: i64) -> MemoryOffset16Bit {
        MemoryOffset16Bit::OffsetForm16(Immediate64Bit(value))
    }
}

impl From<u64> for MemoryOffset16Bit {
    fn from(value: u64) -> (r: Self) {
        MemoryOffset16Bit::OffsetForm16(Immediate64Bit(#[verifier::truncate] (value as i64)))
    }
}

impl vstd::std_specs::convert::FromSpecImpl<u64> for MemoryOffset16Bit {
    open spec fn obeys_from_spec() -> bool {
        true
    }

    open spec fn from_spec(value: u64) -> MemoryOffset16Bit {
        MemoryOffset16Bit::OffsetForm16(Immediate64Bit(value as i64))
    }
}

impl From<i32> for MemoryOffset16Bit {
    fn from(value: i32) -> (r: Self) {
        MemoryOffset16Bit::OffsetForm16(Immediate64Bit(value as i64))
    }
}

impl vstd::std_specs::convert::FromSpecImpl<i32> for MemoryOffset16Bit {
    open spec fn obeys_from_spec() -> bool {
        true
    }

    open spec fn from_spec(value: i32) -> MemoryOffset16Bit {
        MemoryOffset16Bit::OffsetForm16(Immediate64Bit(value as i64))
    }
}

impl From<u32> for MemoryOffset16Bit {
    fn from(value: u32) -> (r: Self) {
        MemoryOffset16Bit::OffsetForm16(Immediate64Bit(value as i64))
    }
}

impl vstd::std_specs::convert::FromSpecImpl<u32> for MemoryOffset16Bit {
    open spec fn obeys_from_spec() -> bool {
        true
    }

    open spec fn from_spec(value: u32) -> MemoryOffset16Bit {
        MemoryOffset16Bit::OffsetForm16(Immediate64Bit(value as i64))
    }
}

impl From<i16> for MemoryOffset16Bit {
    fn from(value: i16) -> (r: Self) {
        MemoryOffset16Bit::OffsetForm16(Immediate64Bit(value as i64))
    }
}

impl vstd::std_specs::convert::FromSpecImpl<i16> for MemoryOffset16Bit {
    open spec fn obeys_from_spec() -> bool {
        true
    }

    open spec fn from_spec(value: i16) -> MemoryOffset16Bit {
        MemoryOffset16Bit::OffsetForm16(Immediate64Bit(value as i64))
    }
}

impl From<u16> for MemoryOffset16Bit {
    fn from(value: u16) -> (r: Self) {
        MemoryOffset16Bit::OffsetForm16(Immediate64Bit(value as i64))
    }
}

impl vstd::std_specs::convert::FromSpecImpl<u16> for MemoryOffset16Bit {
    open spec fn obeys_from_spec() -> bool {
        true
    }

    open spec fn from_spec(value: u16) -> MemoryOffset16Bit {
        MemoryOffset16Bit::OffsetForm16(Immediate64Bit(value as i64))
    }
}

impl From<i8> for MemoryOffset16Bit {
    fn from(value: i8) -> (r: Self) {
        MemoryOffset16Bit::OffsetForm16(Immediate64Bit(value as i64))
    }
}

impl vstd::std_specs::convert::FromSpecImpl<i8> for MemoryOffset16Bit {
    open spec fn obeys_from_spec() -> bool {
        true
    }

    open spec fn from_spec(value: i8) -> MemoryOffset16Bit {
        MemoryOffset16Bit::OffsetForm16(Immediate64Bit(value as i64))
    }
}

impl From<u8> for MemoryOffset16Bit {
    fn from(value: u8) -> (r: Self) {
        MemoryOffset16Bit::OffsetForm16(Immediate64Bit(value as i64))
    }
}

impl vstd::std_specs::convert::FromSpecImpl<u8> for MemoryOffset16Bit {
    open spec fn obeys_from_spec() -> bool {
        true
    }

    open spec fn from_spec(value: u8) -> MemoryOffset16Bit {
        MemoryOffset16Bit::OffsetForm16(Immediate64Bit(value as i64))
    }
}

impl From<MemoryOffset16Bit> for (Option<SegmentRegister>, Immediate64Bit) {
    fn from(value: MemoryOffset16Bit) -> (r: Self) {
        match value {
            MemoryOffset16Bit::SegmentOffsetForm16(segment_register, immediate) => (Some(segment_register), immediate),
            MemoryOffset16Bit::OffsetForm16(immediate) => (None, immediate),
        }
    }
}

impl vstd::std_specs::convert::FromSpecImpl<MemoryOffset16Bit> for (Option<SegmentRegister>, Immediate64Bit) {
    open spec fn obeys_from_spec() -> bool {
        true
    }

    open spec fn from_spec(value: MemoryOffset16Bit) -> (Option<SegmentRegister>, Immediate64Bit) {
        (memory_offset_segment(value), memory_offset_offset(value))
    }
}

impl From<MemoryOffset16Bit> for Immediate64Bit {
    fn from(value: MemoryOffset16Bit) -> (r: Self) {
        value.get_offset()
    }
}

impl vstd::std_specs::convert::FromSpecImpl<MemoryOffset16Bit> for Immediate64Bit {
    open spec fn obeys_from_spec() -> bool {
        true
    }

    open spec fn from_spec(value: MemoryOffset16Bit) -> Immediate64Bit {
        memory_offset_offset(value)
    }
}

impl From<MemoryOffset16Bit> for i64 {
    fn from(value: MemoryOffset16Bit) -> (r: Self) {
        value.get_offset().0
    }
}

impl vstd::std_specs::convert::FromSpecImpl<MemoryOffset16Bit> for i64 {
    open spec fn obeys_from_spec() -> bool {
        true
    }

    open spec fn from_spec(value: MemoryOffset16Bit) -> i64 {
        memory_offset_offset(value).0
    }
}

impl From<MemoryOffset16Bit> for u64 {
    fn from(value: MemoryOffset16Bit) -> (r: Self) {
        value.displacement()
    }
}

impl vstd::std_specs::convert::FromSpecImpl<MemoryOffset16Bit> for u64 {
    open spec fn obeys_from_spec() -> bool {
        true
    }

    open spec fn from_spec(value: MemoryOffset16Bit) -> u64 {
        memory_offset_offset(value).0 as u64
    }
}

} // verus!
