use assembler::memory_offsets::{Immediate64Bit, MemoryOffset16Bit};
use assembler::registers::{RegisterIdentifier, SegmentRegister};

#[test]
fn segment_register_default_and_index() {
    assert_eq!(SegmentRegister::default(), SegmentRegister::ES);
    assert_eq!(SegmentRegister::ES.index(), 0);
    assert_eq!(SegmentRegister::CS.index(), 1);
    assert_eq!(SegmentRegister::SS.index(), 2);
    assert_eq!(SegmentRegister::DS.index(), 3);
}

#[test]
fn register_identifier_bits() {
    let r13 = RegisterIdentifier { code: 13 };
    assert_eq!(r13.code_and_7(), 5);
    assert_eq!(r13.code_and_8(), 8);
    assert_eq!(r13.code_and_8_then_invert(), 0);
    let rcx = RegisterIdentifier { code: 1 };
    assert_eq!(rcx.code_and_8(), 0);
    assert_eq!(rcx.code_and_8_then_invert(), 8);
}

#[test]
fn memory_offset_forms() {
    let default = MemoryOffset16Bit::default();
    assert_eq!(default, MemoryOffset16Bit::OffsetForm16(Immediate64Bit(0)));
    assert_eq!(default.get_segment_register(), None);

    let with_segment = MemoryOffset16Bit::from((SegmentRegister::DS, Immediate64Bit(-2)));
    assert_eq!(with_segment.get_segment_register(), Some(SegmentRegister::DS));
    assert_eq!(with_segment.get_offset(), Immediate64Bit(-2));
    assert_eq!(with_segment.displacement(), u64::MAX - 1);

    let optional = MemoryOffset16Bit::from((None, Immediate64Bit(9)));
    assert_eq!(optional, MemoryOffset16Bit::OffsetForm16(Immediate64Bit(9)));
    let optional = MemoryOffset16Bit::from((Some(SegmentRegister::SS), Immediate64Bit(9)));
    assert_eq!(optional, MemoryOffset16Bit::SegmentOffsetForm16(SegmentRegister::SS, Immediate64Bit(9)));
}

#[test]
fn memory_offset_conversions() {
    assert_eq!(MemoryOffset16Bit::from(-1i8).get_offset(), Immediate64Bit(-1));
    assert_eq!(MemoryOffset16Bit::from(0xFFu8).get_offset(), Immediate64Bit(255));
    assert_eq!(MemoryOffset16Bit::from(-300i16).get_offset(), Immediate64Bit(-300));
    assert_eq!(MemoryOffset16Bit::from(0xFFFFu16).get_offset(), Immediate64Bit(0xFFFF));
    assert_eq!(MemoryOffset16Bit::from(-70000i32).get_offset(), Immediate64Bit(-70000));
    assert_eq!(MemoryOffset16Bit::from(0xFFFF_FFFFu32).get_offset(), Immediate64Bit(0xFFFF_FFFF));
    assert_eq!(MemoryOffset16Bit::from(i64::MIN).get_offset(), Immediate64Bit(i64::MIN));
    assert_eq!(MemoryOffset16Bit::from(u64::MAX).get_offset(), Immediate64Bit(-1));
    assert_eq!(MemoryOffset16Bit::from(Immediate64Bit(4)).get_offset(), Immediate64Bit(4));

    let m = MemoryOffset16Bit::SegmentOffsetForm16(SegmentRegister::CS, Immediate64Bit(-3));
    let pair: (Option<SegmentRegister>, Immediate64Bit) = m.into();
    assert_eq!(pair, (Some(SegmentRegister::CS), Immediate64Bit(-3)));
    let immediate: Immediate64Bit = m.into();
    assert_eq!(immediate, Immediate64Bit(-3));
    let signed: i64 = m.into();
    assert_eq!(signed, -3);
    let unsigned: u64 = m.into();
    assert_eq!(unsigned, u64::MAX - 2);
}
