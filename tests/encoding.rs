use assembler::encoder::operands_are_consistent;
use assembler::error::InstructionEncodingError;
use assembler::operands::{
    AddressSize, Expression, InstructionFlags, JumpVariant, MnemonicDefinitionSignature,
    ParsedIndirectMemoryReferenceIndex, Size, SizedMnemonicArgument, SupportedOperationalMode,
};
use assembler::prefixes::PrefixRequirements;
use assembler::registers::{Register, RegisterKind};
use assembler::relocations::{Relocation, RelocationKind, Relocations};
use assembler::statements::{Statement, StatementsBuffer};

fn gpr(code: u8) -> Register {
    Register { kind: RegisterKind::General, code }
}

fn xmm(code: u8) -> Register {
    Register { kind: RegisterKind::Vector, code }
}

fn rip() -> Register {
    Register { kind: RegisterKind::InstructionPointer, code: 5 }
}

fn direct(register: Register, size: Size) -> Option<SizedMnemonicArgument> {
    Some(SizedMnemonicArgument::DirectRegisterReference { register, size })
}

fn memory(
    base: Option<Register>,
    index: Option<ParsedIndirectMemoryReferenceIndex>,
    displacement: Option<Expression>,
    displacement_size: Option<Size>,
) -> Option<SizedMnemonicArgument> {
    Some(SizedMnemonicArgument::IndirectMemoryReference { displacement_size, base, index, displacement })
}

fn signature(opcode_bytes: Vec<u8>, flags: InstructionFlags) -> MnemonicDefinitionSignature {
    MnemonicDefinitionSignature { opcode_bytes, flags, reg_extension: None }
}

fn no_prefixes() -> PrefixRequirements {
    PrefixRequirements {
        size_prefix_is_needed: false,
        legacy_prefix_modification: None,
        rex_prefix_is_needed: false,
        rex_w_prefix_is_needed: false,
        vex_l_prefix_is_needed: false,
    }
}

fn rex_w() -> PrefixRequirements {
    PrefixRequirements { rex_prefix_is_needed: true, rex_w_prefix_is_needed: true, ..no_prefixes() }
}

struct Encoded {
    statements: Vec<Statement>,
    result: Result<Relocations, InstructionEncodingError>,
}

#[allow(clippy::too_many_arguments)]
fn encode(
    mode: SupportedOperationalMode,
    signature: &MnemonicDefinitionSignature,
    p: PrefixRequirements,
    reg: Option<SizedMnemonicArgument>,
    rm: Option<SizedMnemonicArgument>,
    vvvv: Option<SizedMnemonicArgument>,
    ireg: Option<SizedMnemonicArgument>,
    immediates: Vec<SizedMnemonicArgument>,
) -> Encoded {
    let mut buffer = StatementsBuffer::new("f".to_string());
    let result = buffer.encode_instruction(
        mode,
        signature,
        AddressSize::Bits64,
        p,
        reg,
        rm,
        vvvv,
        ireg,
        None,
        immediates,
    );
    buffer.finish();
    Encoded { statements: buffer.into_statements(), result }
}

fn framed(middle: Vec<Statement>) -> Vec<Statement> {
    let mut all = vec![Statement::FunctionStart("f".to_string())];
    all.extend(middle);
    all.push(Statement::FunctionEnd);
    all
}

/// The machine code, where every slot holds a constant.
fn bytes_of(statements: &[Statement]) -> Vec<u8> {
    let mut out = Vec::new();
    for s in statements {
        match s {
            Statement::Bytes(b) => out.extend_from_slice(b),
            Statement::SignedExpression { value: Expression::Constant(c), size }
            | Statement::UnsignedExpression { value: Expression::Constant(c), size } => {
                let n = size.in_bytes();
                out.extend_from_slice(&c.to_le_bytes()[..n]);
            }
            Statement::FunctionStart(_) | Statement::FunctionEnd => {}
            other => panic!("not a constant: {:?}", other),
        }
    }
    out
}

#[test]
fn mov_rax_rcx_long_mode() {
    let sig = signature(vec![0x89], InstructionFlags::none());
    let e = encode(
        SupportedOperationalMode::Long,
        &sig,
        rex_w(),
        direct(gpr(1), Size::QWORD),
        direct(gpr(0), Size::QWORD),
        None,
        None,
        vec![],
    );
    let relocations = e.result.unwrap();
    assert!(relocations.entries.is_empty());
    assert_eq!(e.statements, framed(vec![Statement::Bytes(vec![0x48, 0x89, 0xC8])]));
}

#[test]
fn mov_rbp_indirect_al_forces_zero_disp8() {
    let sig = signature(vec![0x88], InstructionFlags::none());
    let e = encode(
        SupportedOperationalMode::Long,
        &sig,
        no_prefixes(),
        direct(gpr(0), Size::BYTE),
        memory(Some(gpr(5)), None, None, None),
        None,
        None,
        vec![],
    );
    assert!(e.result.unwrap().entries.is_empty());
    assert_eq!(e.statements, framed(vec![Statement::Bytes(vec![0x88, 0x45, 0x00])]));
}

#[test]
fn mov_eax_displacement_only_long_mode() {
    let sig = signature(vec![0x8B], InstructionFlags::none());
    let e = encode(
        SupportedOperationalMode::Long,
        &sig,
        no_prefixes(),
        direct(gpr(0), Size::DWORD),
        memory(None, None, Some(Expression::Constant(0x12345678)), Some(Size::DWORD)),
        None,
        None,
        vec![],
    );
    assert!(e.result.unwrap().entries.is_empty());
    assert_eq!(
        e.statements,
        framed(vec![
            Statement::Bytes(vec![0x8B, 0x04, 0x25]),
            Statement::SignedExpression { value: Expression::Constant(0x12345678), size: Size::DWORD },
        ])
    );
    assert_eq!(bytes_of(&e.statements), vec![0x8B, 0x04, 0x25, 0x78, 0x56, 0x34, 0x12]);
}

#[test]
fn displacement_only_protected_mode_uses_rbp_form() {
    let sig = signature(vec![0x8B], InstructionFlags::none());
    let e = encode(
        SupportedOperationalMode::Protected,
        &sig,
        no_prefixes(),
        direct(gpr(0), Size::DWORD),
        memory(None, None, None, None),
        None,
        None,
        vec![],
    );
    assert!(e.result.unwrap().entries.is_empty());
    assert_eq!(bytes_of(&e.statements), vec![0x8B, 0x05, 0, 0, 0, 0]);
}

#[test]
fn jmp_rel32_bare_target_long_mode() {
    let sig = signature(vec![0xE9], InstructionFlags::none());
    let target = JumpVariant::Bare(Expression::Fragment("foo".to_string()));
    let e = encode(
        SupportedOperationalMode::Long,
        &sig,
        no_prefixes(),
        None,
        None,
        None,
        None,
        vec![SizedMnemonicArgument::JumpTarget { jump_variant: target, size: Size::DWORD }],
    );
    let relocations = e.result.unwrap();
    assert_eq!(bytes_of(&e.statements), vec![0xE9, 0, 0, 0, 0]);
    assert_eq!(
        relocations.entries,
        vec![Relocation {
            kind: RelocationKind::JumpTargetRelative,
            target: JumpVariant::Bare(Expression::Fragment("foo".to_string())),
            offset: 1,
            size: Size::DWORD,
        }]
    );
}

#[test]
fn jmp_bare_target_protected_mode_is_extern() {
    let sig = signature(vec![0xE9], InstructionFlags::none());
    let e = encode(
        SupportedOperationalMode::Protected,
        &sig,
        no_prefixes(),
        None,
        None,
        None,
        None,
        vec![SizedMnemonicArgument::JumpTarget {
            jump_variant: JumpVariant::Bare(Expression::Constant(0x1000)),
            size: Size::DWORD,
        }],
    );
    let relocations = e.result.unwrap();
    assert_eq!(relocations.entries.len(), 1);
    assert_eq!(relocations.entries[0].kind, RelocationKind::Extern);
    assert_eq!(relocations.entries[0].offset, 1);
}

#[test]
fn jmp_short_bare_target_long_mode_is_refused() {
    let sig = signature(vec![0xEB], InstructionFlags::none());
    let e = encode(
        SupportedOperationalMode::Long,
        &sig,
        no_prefixes(),
        None,
        None,
        None,
        None,
        vec![SizedMnemonicArgument::JumpTarget {
            jump_variant: JumpVariant::Bare(Expression::Constant(0)),
            size: Size::BYTE,
        }],
    );
    assert_eq!(e.result.unwrap_err(), InstructionEncodingError::ExternJumpTargetNotRegistrable);
}

#[test]
fn jmp_forward_label_byte() {
    let sig = signature(vec![0xEB], InstructionFlags::none());
    let e = encode(
        SupportedOperationalMode::Long,
        &sig,
        no_prefixes(),
        None,
        None,
        None,
        None,
        vec![SizedMnemonicArgument::JumpTarget {
            jump_variant: JumpVariant::Forward("next".to_string()),
            size: Size::BYTE,
        }],
    );
    let relocations = e.result.unwrap();
    assert_eq!(bytes_of(&e.statements), vec![0xEB, 0]);
    assert_eq!(
        relocations.entries,
        vec![Relocation {
            kind: RelocationKind::JumpTargetRelative,
            target: JumpVariant::Forward("next".to_string()),
            offset: 1,
            size: Size::BYTE,
        }]
    );
}

#[test]
fn lea_rip_relative_long_mode() {
    let sig = signature(vec![0x8D], InstructionFlags::none());
    let e = encode(
        SupportedOperationalMode::Long,
        &sig,
        rex_w(),
        direct(gpr(0), Size::QWORD),
        memory(Some(rip()), None, Some(Expression::Constant(0x10)), None),
        None,
        None,
        vec![],
    );
    assert!(e.result.unwrap().entries.is_empty());
    assert_eq!(
        e.statements,
        framed(vec![
            Statement::Bytes(vec![0x48, 0x8D, 0x05]),
            Statement::SignedExpression { value: Expression::Constant(0x10), size: Size::DWORD },
        ])
    );
    assert_eq!(bytes_of(&e.statements), vec![0x48, 0x8D, 0x05, 0x10, 0, 0, 0]);
}

#[test]
fn rip_relative_protected_mode_goes_through_relocation() {
    let sig = signature(vec![0x8D], InstructionFlags::none());
    let e = encode(
        SupportedOperationalMode::Protected,
        &sig,
        no_prefixes(),
        direct(gpr(0), Size::DWORD),
        memory(Some(rip()), None, Some(Expression::Constant(0x10)), None),
        None,
        None,
        vec![],
    );
    let relocations = e.result.unwrap();
    assert_eq!(bytes_of(&e.statements), vec![0x8D, 0x05, 0, 0, 0, 0]);
    assert_eq!(
        relocations.entries,
        vec![Relocation {
            kind: RelocationKind::JumpTargetRelative,
            target: JumpVariant::Bare(Expression::Constant(0x10)),
            offset: 2,
            size: Size::DWORD,
        }]
    );
}

#[test]
fn rip_relative_protected_mode_without_displacement_uses_zero() {
    let sig = signature(vec![0x8D], InstructionFlags::none());
    let e = encode(
        SupportedOperationalMode::Protected,
        &sig,
        no_prefixes(),
        direct(gpr(0), Size::DWORD),
        memory(Some(rip()), None, None, None),
        None,
        None,
        vec![],
    );
    let relocations = e.result.unwrap();
    assert_eq!(relocations.entries.len(), 1);
    assert_eq!(relocations.entries[0].target, JumpVariant::Bare(Expression::Constant(0)));
    assert_eq!(bytes_of(&e.statements).len(), 6);
}

#[test]
fn vaddps_two_byte_vex() {
    let sig = signature(
        vec![0x01, 0x58],
        InstructionFlags { vex_op: true, xop_op: false, short_arg: false },
    );
    let e = encode(
        SupportedOperationalMode::Long,
        &sig,
        no_prefixes(),
        direct(xmm(0), Size::QWORD),
        direct(xmm(2), Size::QWORD),
        direct(xmm(1), Size::QWORD),
        None,
        vec![],
    );
    assert!(e.result.unwrap().entries.is_empty());
    assert_eq!(e.statements, framed(vec![Statement::Bytes(vec![0xC5, 0xF0, 0x58, 0xC2])]));
}

#[test]
fn vex_with_w_uses_three_byte_form() {
    let sig = signature(
        vec![0x02, 0x45],
        InstructionFlags { vex_op: true, xop_op: false, short_arg: false },
    );
    let p = PrefixRequirements { rex_w_prefix_is_needed: true, size_prefix_is_needed: true, ..no_prefixes() };
    let e = encode(
        SupportedOperationalMode::Long,
        &sig,
        p,
        direct(xmm(0), Size::QWORD),
        direct(xmm(9), Size::QWORD),
        direct(xmm(1), Size::QWORD),
        None,
        vec![],
    );
    assert!(e.result.is_ok());
    // byte1: R=1 X=1 B=0 (xmm9), map 00010; byte2: W=1, vvvv=~1, L=0, pp=01.
    assert_eq!(bytes_of(&e.statements), vec![0xC4, 0xC2, 0xF1, 0x45, 0xC1]);
}

#[test]
fn xop_prefix() {
    let sig = signature(
        vec![0x08, 0xA2],
        InstructionFlags { vex_op: false, xop_op: true, short_arg: false },
    );
    let e = encode(
        SupportedOperationalMode::Protected,
        &sig,
        no_prefixes(),
        direct(xmm(0), Size::QWORD),
        direct(xmm(2), Size::QWORD),
        direct(xmm(1), Size::QWORD),
        None,
        vec![],
    );
    assert!(e.result.is_ok());
    assert_eq!(bytes_of(&e.statements), vec![0x8F, 0xE8, 0x70, 0xA2, 0xC2]);
}

#[test]
fn vex_pp_from_legacy_prefix() {
    let sig = signature(
        vec![0x01, 0x58],
        InstructionFlags { vex_op: true, xop_op: false, short_arg: false },
    );
    let p = PrefixRequirements { legacy_prefix_modification: Some(0xF2), ..no_prefixes() };
    let e = encode(
        SupportedOperationalMode::Long,
        &sig,
        p,
        direct(xmm(0), Size::QWORD),
        direct(xmm(2), Size::QWORD),
        direct(xmm(1), Size::QWORD),
        None,
        vec![],
    );
    assert!(e.result.is_ok());
    assert_eq!(bytes_of(&e.statements), vec![0xC5, 0xF3, 0x58, 0xC2]);
}

#[test]
fn rex_needed_in_protected_mode_fails() {
    let sig = signature(vec![0x89], InstructionFlags::none());
    let e = encode(
        SupportedOperationalMode::Protected,
        &sig,
        rex_w(),
        direct(gpr(1), Size::QWORD),
        direct(gpr(0), Size::QWORD),
        None,
        None,
        vec![],
    );
    let error = e.result.unwrap_err();
    assert_eq!(error, InstructionEncodingError::RexPrefixInProtectedMode);
    assert_eq!(
        error.reason(),
        "Some SSE and AVX legacy encoded operations are not possible in 32-bit mode as they require a REX.W prefix to be encoded, which is impossible"
    );
}

#[test]
fn short_arg_embeds_register() {
    let sig = signature(vec![0x50], InstructionFlags { vex_op: false, xop_op: false, short_arg: true });
    let p = PrefixRequirements { rex_prefix_is_needed: true, ..no_prefixes() };
    let e = encode(
        SupportedOperationalMode::Long,
        &sig,
        p,
        None,
        direct(gpr(9), Size::QWORD),
        None,
        None,
        vec![],
    );
    assert!(e.result.is_ok());
    assert_eq!(bytes_of(&e.statements), vec![0x41, 0x51]);
}

#[test]
fn short_arg_with_memory_operand_fails() {
    let sig = signature(vec![0x50], InstructionFlags { vex_op: false, xop_op: false, short_arg: true });
    let e = encode(
        SupportedOperationalMode::Long,
        &sig,
        no_prefixes(),
        None,
        memory(Some(gpr(0)), None, None, None),
        None,
        None,
        vec![],
    );
    assert_eq!(e.result.unwrap_err(), InstructionEncodingError::ShortArgumentWithoutRegister);
    assert_eq!(e.statements, framed(vec![]));
}

#[test]
fn short_arg_without_operand_fails() {
    let sig = signature(vec![0x50], InstructionFlags { vex_op: false, xop_op: false, short_arg: true });
    let rm = None;
    assert!(!operands_are_consistent(&sig, AddressSize::Bits64, &rm, &None, &vec![]));
}

#[test]
fn r13_base_without_displacement_forces_zero_disp8() {
    let sig = signature(vec![0x8B], InstructionFlags::none());
    let e = encode(
        SupportedOperationalMode::Long,
        &sig,
        PrefixRequirements { rex_prefix_is_needed: true, ..no_prefixes() },
        direct(gpr(0), Size::DWORD),
        memory(Some(gpr(13)), None, None, None),
        None,
        None,
        vec![],
    );
    assert!(e.result.is_ok());
    assert_eq!(bytes_of(&e.statements), vec![0x41, 0x8B, 0x45, 0x00]);
}

#[test]
fn base_index_scale_with_disp8() {
    let sig = signature(vec![0x8B], InstructionFlags::none());
    let index = ParsedIndirectMemoryReferenceIndex { register: gpr(1), scale: 4, expression: None };
    let e = encode(
        SupportedOperationalMode::Long,
        &sig,
        no_prefixes(),
        direct(gpr(2), Size::DWORD),
        memory(Some(gpr(3)), Some(index), Some(Expression::Constant(8)), Some(Size::BYTE)),
        None,
        None,
        vec![],
    );
    assert!(e.result.is_ok());
    // mov edx, [rbx + rcx*4 + 8]
    assert_eq!(bytes_of(&e.statements), vec![0x8B, 0x54, 0x8B, 0x08]);
}

#[test]
fn index_without_base_uses_disp32() {
    let sig = signature(vec![0x8B], InstructionFlags::none());
    let index = ParsedIndirectMemoryReferenceIndex { register: gpr(1), scale: 8, expression: None };
    let e = encode(
        SupportedOperationalMode::Long,
        &sig,
        no_prefixes(),
        direct(gpr(0), Size::DWORD),
        memory(None, Some(index), None, None),
        None,
        None,
        vec![],
    );
    assert!(e.result.is_ok());
    assert_eq!(bytes_of(&e.statements), vec![0x8B, 0x04, 0xCD, 0, 0, 0, 0]);
}

#[test]
fn scale_by_expression_is_a_slot() {
    let sig = signature(vec![0x8B], InstructionFlags::none());
    let index = ParsedIndirectMemoryReferenceIndex {
        register: gpr(1),
        scale: 2,
        expression: Some(Expression::Fragment("n".to_string())),
    };
    let e = encode(
        SupportedOperationalMode::Long,
        &sig,
        no_prefixes(),
        direct(gpr(0), Size::DWORD),
        memory(Some(gpr(3)), Some(index), None, None),
        None,
        None,
        vec![],
    );
    assert!(e.result.is_ok());
    assert_eq!(
        e.statements,
        framed(vec![
            Statement::Bytes(vec![0x8B, 0x04]),
            Statement::ScaledIndexByte {
                scale: 2,
                expression: Expression::Fragment("n".to_string()),
                index: 1,
                base: 3,
            },
        ])
    );
}

#[test]
fn vsib_without_displacement_has_zero_disp8() {
    let sig = signature(
        vec![0x02, 0x92],
        InstructionFlags { vex_op: true, xop_op: false, short_arg: false },
    );
    let index = ParsedIndirectMemoryReferenceIndex { register: xmm(2), scale: 4, expression: None };
    let p = PrefixRequirements { size_prefix_is_needed: true, ..no_prefixes() };
    let e = encode(
        SupportedOperationalMode::Long,
        &sig,
        p,
        direct(xmm(1), Size::QWORD),
        memory(Some(gpr(0)), Some(index), None, None),
        direct(xmm(3), Size::QWORD),
        None,
        vec![],
    );
    assert!(e.result.is_ok());
    // vgatherdps xmm1, [rax + xmm2*4], xmm3
    assert_eq!(bytes_of(&e.statements), vec![0xC4, 0xE2, 0x61, 0x92, 0x4C, 0x90, 0x00]);
}

#[test]
fn vsib_without_base_uses_disp32() {
    let sig = signature(
        vec![0x02, 0x92],
        InstructionFlags { vex_op: true, xop_op: false, short_arg: false },
    );
    let index = ParsedIndirectMemoryReferenceIndex { register: xmm(2), scale: 1, expression: None };
    let e = encode(
        SupportedOperationalMode::Long,
        &sig,
        no_prefixes(),
        direct(xmm(1), Size::QWORD),
        memory(None, Some(index), None, None),
        direct(xmm(3), Size::QWORD),
        None,
        vec![],
    );
    assert!(e.result.is_ok());
    let bytes = bytes_of(&e.statements);
    assert_eq!(&bytes[3..], &[0x92, 0x0C, 0x15, 0, 0, 0, 0]);
}

#[test]
fn sixteen_bit_addressing() {
    let sig = signature(vec![0x8B], InstructionFlags::none());
    let mut buffer = StatementsBuffer::new("f".to_string());
    // mov ax, [bp] (base code 6 in the 16-bit table, here with disp16)
    let result = buffer.encode_instruction(
        SupportedOperationalMode::Protected,
        &sig,
        AddressSize::Bits16,
        no_prefixes(),
        direct(gpr(0), Size::WORD),
        memory(Some(gpr(6)), None, Some(Expression::Constant(0x1234)), Some(Size::WORD)),
        None,
        None,
        None,
        vec![],
    );
    assert!(result.is_ok());
    buffer.finish();
    let statements = buffer.into_statements();
    assert_eq!(bytes_of(&statements), vec![0x8B, 0x86, 0x34, 0x12]);
}

#[test]
fn sixteen_bit_addressing_without_base_fails() {
    let sig = signature(vec![0x8B], InstructionFlags::none());
    let mut buffer = StatementsBuffer::new("f".to_string());
    let result = buffer.encode_instruction(
        SupportedOperationalMode::Protected,
        &sig,
        AddressSize::Bits16,
        no_prefixes(),
        direct(gpr(0), Size::WORD),
        memory(None, None, Some(Expression::Constant(0x1234)), Some(Size::WORD)),
        None,
        None,
        None,
        vec![],
    );
    assert_eq!(result.unwrap_err(), InstructionEncodingError::SixteenBitAddressingWithoutBase);
}

#[test]
fn immediates_and_trailing_opcode_byte() {
    let sig = MnemonicDefinitionSignature {
        opcode_bytes: vec![0x81],
        flags: InstructionFlags::none(),
        reg_extension: Some(0),
    };
    let mut buffer = StatementsBuffer::new("f".to_string());
    // add ecx, 0x1000 ; then a made-up trailing opcode byte
    let result = buffer.encode_instruction(
        SupportedOperationalMode::Long,
        &sig,
        AddressSize::Bits64,
        no_prefixes(),
        None,
        direct(gpr(1), Size::DWORD),
        None,
        None,
        Some(0x0F),
        vec![SizedMnemonicArgument::Immediate { value: Expression::Constant(0x1000), size: Size::DWORD }],
    );
    assert!(result.is_ok());
    buffer.finish();
    let statements = buffer.into_statements();
    assert_eq!(bytes_of(&statements), vec![0x81, 0xC1, 0x0F, 0x00, 0x10, 0, 0]);
}

#[test]
fn register_in_immediate_merges_byte_immediate() {
    let sig = signature(
        vec![0x03, 0x4A],
        InstructionFlags { vex_op: true, xop_op: false, short_arg: false },
    );
    let e = encode(
        SupportedOperationalMode::Long,
        &sig,
        PrefixRequirements { size_prefix_is_needed: true, ..no_prefixes() },
        direct(xmm(0), Size::QWORD),
        direct(xmm(2), Size::QWORD),
        direct(xmm(1), Size::QWORD),
        direct(xmm(3), Size::QWORD),
        vec![SizedMnemonicArgument::Immediate { value: Expression::Constant(5), size: Size::BYTE }],
    );
    assert!(e.result.is_ok());
    assert_eq!(
        e.statements[e.statements.len() - 2],
        Statement::UnsignedExpression {
            value: Expression::MaskedOr { literal: 0x30, value: Box::new(Expression::Constant(5)), mask: 0xF },
            size: Size::BYTE,
        }
    );
}

#[test]
fn register_in_immediate_alone() {
    let sig = signature(
        vec![0x03, 0x4A],
        InstructionFlags { vex_op: true, xop_op: false, short_arg: false },
    );
    let e = encode(
        SupportedOperationalMode::Long,
        &sig,
        PrefixRequirements { size_prefix_is_needed: true, ..no_prefixes() },
        direct(xmm(0), Size::QWORD),
        direct(xmm(2), Size::QWORD),
        direct(xmm(1), Size::QWORD),
        direct(xmm(4), Size::QWORD),
        vec![],
    );
    assert!(e.result.is_ok());
    assert_eq!(
        bytes_of(&e.statements),
        vec![0xC4, 0xE3, 0x71, 0x4A, 0xC2, 0x40]
    );
}

#[test]
fn indirect_jump_target() {
    let sig = MnemonicDefinitionSignature {
        opcode_bytes: vec![0xFF],
        flags: InstructionFlags::none(),
        reg_extension: Some(4),
    };
    let e = encode(
        SupportedOperationalMode::Long,
        &sig,
        no_prefixes(),
        None,
        Some(SizedMnemonicArgument::IndirectJumpTarget {
            jump_variant: JumpVariant::Global("table".to_string()),
            size: Size::QWORD,
        }),
        None,
        None,
        vec![],
    );
    let relocations = e.result.unwrap();
    assert_eq!(bytes_of(&e.statements), vec![0xFF, 0x25, 0, 0, 0, 0]);
    assert_eq!(
        relocations.entries,
        vec![Relocation {
            kind: RelocationKind::JumpTargetRelative,
            target: JumpVariant::Global("table".to_string()),
            offset: 2,
            size: Size::DWORD,
        }]
    );
}

#[test]
fn relocation_offsets_lie_within_the_stream() {
    let sig = signature(vec![0xE8], InstructionFlags::none());
    let mut buffer = StatementsBuffer::new("f".to_string());
    let first = buffer
        .encode_instruction(
            SupportedOperationalMode::Long,
            &sig,
            AddressSize::Bits64,
            no_prefixes(),
            None,
            None,
            None,
            None,
            None,
            vec![SizedMnemonicArgument::JumpTarget {
                jump_variant: JumpVariant::Backward("start".to_string()),
                size: Size::DWORD,
            }],
        )
        .unwrap();
    let second = buffer
        .encode_instruction(
            SupportedOperationalMode::Long,
            &sig,
            AddressSize::Bits64,
            no_prefixes(),
            None,
            None,
            None,
            None,
            None,
            vec![SizedMnemonicArgument::JumpTarget {
                jump_variant: JumpVariant::Dynamic(Expression::Constant(3)),
                size: Size::DWORD,
            }],
        )
        .unwrap();
    assert_eq!(buffer.len(), 10);
    assert_eq!(first.entries[0].offset, 1);
    assert_eq!(second.entries[0].offset, 6);
    for r in first.entries.iter().chain(second.entries.iter()) {
        assert!(r.offset + r.size.in_bytes() <= buffer.len());
    }
}

#[test]
fn byte_count_is_sum_of_parts() {
    // 66 REX ModR/M SIB disp32 imm16: prefix 2, opcode 1, ModR/M 1, SIB 1, disp 4, imm 2
    let sig = MnemonicDefinitionSignature {
        opcode_bytes: vec![0xC7],
        flags: InstructionFlags::none(),
        reg_extension: Some(0),
    };
    let index = ParsedIndirectMemoryReferenceIndex { register: gpr(9), scale: 2, expression: None };
    let p = PrefixRequirements { size_prefix_is_needed: true, rex_prefix_is_needed: true, ..no_prefixes() };
    let mut buffer = StatementsBuffer::new("f".to_string());
    let result = buffer.encode_instruction(
        SupportedOperationalMode::Long,
        &sig,
        AddressSize::Bits64,
        p,
        None,
        memory(Some(gpr(0)), Some(index), Some(Expression::Constant(0x100)), Some(Size::DWORD)),
        None,
        None,
        None,
        vec![SizedMnemonicArgument::Immediate { value: Expression::Constant(7), size: Size::WORD }],
    );
    assert!(result.is_ok());
    assert_eq!(buffer.len(), 2 + 1 + 1 + 1 + 4 + 2);
    buffer.finish();
    let statements = buffer.into_statements();
    assert_eq!(
        bytes_of(&statements),
        vec![0x66, 0x42, 0xC7, 0x84, 0x48, 0x00, 0x01, 0, 0, 0x07, 0x00]
    );
}

#[test]
fn vex_signature_emits_no_rex() {
    let sig = signature(
        vec![0x01, 0x58],
        InstructionFlags { vex_op: true, xop_op: false, short_arg: false },
    );
    let p = PrefixRequirements { rex_prefix_is_needed: true, rex_w_prefix_is_needed: true, ..no_prefixes() };
    let e = encode(
        SupportedOperationalMode::Long,
        &sig,
        p,
        direct(xmm(0), Size::QWORD),
        direct(xmm(2), Size::QWORD),
        direct(xmm(1), Size::QWORD),
        None,
        vec![],
    );
    assert!(e.result.is_ok());
    let bytes = bytes_of(&e.statements);
    // W set: the three-byte form, and nothing before it.
    assert_eq!(bytes, vec![0xC4, 0xE1, 0xF0, 0x58, 0xC2]);
    assert!(!(0x40..=0x4F).contains(&bytes[0]));
}

#[test]
fn error_reasons() {
    assert_eq!(
        InstructionEncodingError::ShortArgumentWithoutRegister.reason(),
        "invalid mnemonic signature: SHORT_ARG needs a direct register as r/m operand"
    );
    assert_eq!(
        InstructionEncodingError::ExternJumpTargetNotRegistrable.reason(),
        "In 64-bit mode a bare jump target can only be registered as a 32-bit relative relocation"
    );
}

#[test]
fn register_in_immediate_keeps_a_wider_immediate() {
    let sig = signature(
        vec![0x03, 0x4A],
        InstructionFlags { vex_op: true, xop_op: false, short_arg: false },
    );
    let e = encode(
        SupportedOperationalMode::Long,
        &sig,
        PrefixRequirements { size_prefix_is_needed: true, ..no_prefixes() },
        direct(xmm(0), Size::QWORD),
        direct(xmm(2), Size::QWORD),
        direct(xmm(1), Size::QWORD),
        direct(xmm(4), Size::QWORD),
        vec![SizedMnemonicArgument::Immediate { value: Expression::Constant(0x1234), size: Size::WORD }],
    );
    assert!(e.result.is_ok());
    // The register byte stands alone; the word immediate follows it.
    assert_eq!(
        bytes_of(&e.statements),
        vec![0xC4, 0xE3, 0x71, 0x4A, 0xC2, 0x40, 0x34, 0x12]
    );
}

#[test]
fn register_in_immediate_before_jump_target() {
    let sig = signature(vec![0x0F, 0x99], InstructionFlags::none());
    let e = encode(
        SupportedOperationalMode::Long,
        &sig,
        no_prefixes(),
        direct(gpr(0), Size::DWORD),
        direct(gpr(1), Size::DWORD),
        None,
        direct(gpr(2), Size::DWORD),
        vec![SizedMnemonicArgument::JumpTarget {
            jump_variant: JumpVariant::Forward("l".to_string()),
            size: Size::DWORD,
        }],
    );
    let relocations = e.result.unwrap();
    assert_eq!(bytes_of(&e.statements), vec![0x0F, 0x99, 0xC1, 0x20, 0, 0, 0, 0]);
    assert_eq!(relocations.entries[0].offset, 4);
}

#[test]
fn register_in_immediate_out_of_range_fails() {
    let sig = signature(vec![0x90], InstructionFlags::none());
    let e = encode(
        SupportedOperationalMode::Long,
        &sig,
        no_prefixes(),
        None,
        None,
        None,
        direct(xmm(16), Size::QWORD),
        vec![],
    );
    assert_eq!(e.result.unwrap_err(), InstructionEncodingError::RegisterInImmediateOutOfRange);
    assert_eq!(e.statements, framed(vec![]));
}

#[test]
fn non_immediate_argument_fails() {
    let sig = signature(vec![0x90], InstructionFlags::none());
    let e = encode(
        SupportedOperationalMode::Long,
        &sig,
        no_prefixes(),
        None,
        None,
        None,
        None,
        vec![SizedMnemonicArgument::DirectRegisterReference { register: gpr(0), size: Size::DWORD }],
    );
    assert_eq!(e.result.unwrap_err(), InstructionEncodingError::NotAnImmediate);
}

#[test]
fn invalid_scale_fails() {
    let sig = signature(vec![0x8B], InstructionFlags::none());
    let index = ParsedIndirectMemoryReferenceIndex { register: gpr(1), scale: 3, expression: None };
    let e = encode(
        SupportedOperationalMode::Long,
        &sig,
        no_prefixes(),
        direct(gpr(0), Size::DWORD),
        memory(Some(gpr(3)), Some(index), None, None),
        None,
        None,
        vec![],
    );
    assert_eq!(e.result.unwrap_err(), InstructionEncodingError::InvalidScale);
}

#[test]
fn vex_without_map_selector_fails() {
    let sig = signature(vec![], InstructionFlags { vex_op: true, xop_op: false, short_arg: false });
    let e = encode(SupportedOperationalMode::Long, &sig, no_prefixes(), None, None, None, None, vec![]);
    assert_eq!(e.result.unwrap_err(), InstructionEncodingError::MissingMapSelector);
}

#[test]
fn failing_jump_target_stops_the_stream() {
    let sig = signature(vec![0xEB], InstructionFlags::none());
    let e = encode(
        SupportedOperationalMode::Long,
        &sig,
        no_prefixes(),
        None,
        None,
        None,
        None,
        vec![
            SizedMnemonicArgument::Immediate { value: Expression::Constant(1), size: Size::BYTE },
            SizedMnemonicArgument::JumpTarget {
                jump_variant: JumpVariant::Bare(Expression::Constant(0)),
                size: Size::BYTE,
            },
            SizedMnemonicArgument::Immediate { value: Expression::Constant(2), size: Size::BYTE },
        ],
    );
    assert_eq!(e.result.unwrap_err(), InstructionEncodingError::ExternJumpTargetNotRegistrable);
    // The opcode, the first immediate and the failing target's zero byte; nothing after.
    assert_eq!(bytes_of(&e.statements), vec![0xEB, 0x01, 0x00]);
}
