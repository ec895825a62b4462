use vstd::prelude::*;
use crate::error::InstructionEncodingError;
use crate::addressing::{
    addressing_emissions, addressing_relocations, displacement_slot, mod_rm_byte,
    ordinary_mod_rm_and_sib, ordinary_mode, rm_consistent, sib_emissions, sixteen_bit_mode,
    vsib_mode, zero_dword, MOD_DIRECT, MOD_DISPLACEMENT_32, MOD_DISPLACEMENT_8,
    MOD_NO_DISPLACEMENT,
};
use crate::encoder::{
    consistency_error, instruction_emissions, opcode_emissions, operands_consistent, rm_after_opcode,
};
use crate::immediates::{
    immediate_emissions, immediates_after_register, immediates_consistent, immediates_emissions,
    is_immediate_like, lemma_immediate_width, register_in_immediate_emissions,
};
use crate::operands::{
    is_vsib_index, size_in_bytes, AddressSize, Expression, MnemonicDefinitionSignature,
    ParsedIndirectMemoryReferenceIndex, Size, SizedMnemonicArgument, SupportedOperationalMode,
};
use crate::prefixes::{
    legacy_prefix_emissions, opcode_tail, prefix_emissions, prefix_fails, rex_byte,
    uses_two_byte_vex, uses_vex_or_xop, PrefixRequirements, OPERAND_SIZE_OVERRIDE_PREFIX,
    VEX_THREE_BYTE_LEAD, VEX_TWO_BYTE_LEAD, XOP_LEAD,
};
use crate::registers::{
    extension_bit, is_rbp_like_base, is_rip_base, RegisterKind, RBP_CODE, RSP_CODE,
};
use crate::relocations::RelocationKind;
use crate::statements::{
    byte_emissions, emission_width, le_bytes, lemma_byte_emissions_width, lemma_width_concat,
    optional_byte, stream_width, Emission, Statement,
};

verus! {

/// A REX byte always lies in `0x40..=0x4F`.
pub proof fn lemma_rex_byte_range(w: bool, reg_code: u8, index_code: u8, base_code: u8)
    ensures
        0x40 <= rex_byte(w, reg_code, index_code, base_code) <= 0x4F,
{
    let b: u8 = if w { 1 } else { 0 };
    let r = extension_bit(reg_code);
    let x = extension_bit(index_code);
    let bb = extension_bit(base_code);
    assert(r == reg_code & 8 && x == index_code & 8 && bb == base_code & 8);
    assert(b <= 1 ==> 0x40 <= ((0x40u8 | (b << 3u8) | ((reg_code & 8) >> 1u8) | ((index_code & 8) >> 2u8) | ((base_code & 8) >> 3u8)) as u8) <= 0x4F) by (bit_vector);
}

/// At most one of the REX, two-byte VEX, three-byte VEX and XOP prefix groups
/// is emitted: a VEX or XOP signature emits exactly one VEX or XOP group and
/// nothing else; any other emits its legacy prefixes and at most one REX byte.
pub proof fn lemma_single_prefix_group(
    mode: SupportedOperationalMode,
    signature: MnemonicDefinitionSignature,
    p: PrefixRequirements,
    opcode: Seq<u8>,
    reg: Option<SizedMnemonicArgument>,
    rm: Option<SizedMnemonicArgument>,
    vvvv: Option<SizedMnemonicArgument>,
)
    requires
        signature.wf(),
        uses_vex_or_xop(signature) ==> opcode.len() >= 1,
        !prefix_fails(mode, signature, p),
    ensures
        ({
            let pre = prefix_emissions(mode, signature, p, opcode, reg, rm, vvvv);
            &&& uses_vex_or_xop(signature) ==> {
                ||| signature.flags.vex_op && pre.len() == 2 && pre[0] == Emission::Byte(VEX_TWO_BYTE_LEAD)
                ||| signature.flags.vex_op && pre.len() == 3 && pre[0] == Emission::Byte(VEX_THREE_BYTE_LEAD)
                ||| signature.flags.xop_op && pre.len() == 3 && pre[0] == Emission::Byte(XOP_LEAD)
            }
            &&& !uses_vex_or_xop(signature) ==> {
                let legacy = legacy_prefix_emissions(p);
                &&& legacy.len() <= pre.len() <= legacy.len() + 1
                &&& pre.subrange(0, legacy.len() as int) == legacy
                &&& pre.len() == legacy.len() + 1 ==> exists|b: u8|
                    0x40 <= b <= 0x4F && pre.last() == Emission::Byte(b)
            }
        }),
{
    reveal(prefix_emissions);
    let pre = prefix_emissions(mode, signature, p, opcode, reg, rm, vvvv);
    if !uses_vex_or_xop(signature) {
        let legacy = legacy_prefix_emissions(p);
        if p.rex_prefix_is_needed {
            let b = rex_byte(
                p.rex_w_prefix_is_needed,
                crate::operands::direct_register_code(reg),
                crate::operands::index_extension_code(rm),
                crate::operands::base_extension_code(rm),
            );
            lemma_rex_byte_range(
                p.rex_w_prefix_is_needed,
                crate::operands::direct_register_code(reg),
                crate::operands::index_extension_code(rm),
                crate::operands::base_extension_code(rm),
            );
            assert(pre.subrange(0, legacy.len() as int) =~= legacy);
            assert(pre.last() == Emission::Byte(b));
        } else {
            assert(pre.subrange(0, legacy.len() as int) =~= legacy);
        }
    }
}

/// A `SHORT_ARG` signature with an r/m operand that is not a register does not
/// fit: encoding fails and emits nothing. Where the signature itself is sound
/// and has an opcode byte to carry the register, the error is
/// `ShortArgumentWithoutRegister`.
pub proof fn lemma_short_arg_needs_register(
    signature: MnemonicDefinitionSignature,
    address_size: AddressSize,
    rm: Option<SizedMnemonicArgument>,
    ireg: Option<SizedMnemonicArgument>,
    immediates: Seq<SizedMnemonicArgument>,
)
    requires
        signature.flags.short_arg,
        !(rm is Some && rm->Some_0 is DirectRegisterReference),
    ensures
        !operands_consistent(signature, address_size, rm, ireg, immediates),
        consistency_error(signature, address_size, rm, ireg, immediates) is Some,
        signature.wf() && (uses_vex_or_xop(signature) ==> signature.opcode_bytes@.len() >= 1)
            && opcode_tail(signature, signature.opcode_bytes@).len() >= 1 ==> consistency_error(
            signature,
            address_size,
            rm,
            ireg,
            immediates,
        ) == Some(InstructionEncodingError::ShortArgumentWithoutRegister),
{
}

/// In 32-bit mode a legacy-encoded operation that needs REX fails with
/// `RexPrefixInProtectedMode`.
pub proof fn lemma_rex_in_protected_mode_fails(
    signature: MnemonicDefinitionSignature,
    p: PrefixRequirements,
)
    requires
        !uses_vex_or_xop(signature),
        p.rex_prefix_is_needed,
    ensures
        prefix_fails(SupportedOperationalMode::Protected, signature, p),
{
}

/// Four zero bytes.
pub proof fn lemma_zero_dword()
    ensures
        zero_dword() == seq![Emission::Byte(0), Emission::Byte(0), Emission::Byte(0), Emission::Byte(0)],
{
    assert forall|i: int| 0 <= i < 4 implies le_bytes(0, 4)[i] == 0 by {
        let k = (8 * i) as u64;
        assert((0u64 >> k) & 0xff == 0) by (bit_vector);
    }
    assert(zero_dword() =~= seq![Emission::Byte(0), Emission::Byte(0), Emission::Byte(0), Emission::Byte(0)]);
}

/// RIP-relative addressing in 32-bit mode: a ModR/M byte `(00, reg, RBP)`,
/// exactly four zero displacement bytes, and exactly one relocation, a
/// relative one over a bare target, covering those four bytes.
pub proof fn lemma_rip_relative_in_protected_mode(
    signature: MnemonicDefinitionSignature,
    reg: Option<SizedMnemonicArgument>,
    displacement_size: Option<Size>,
    base: Option<crate::registers::Register>,
    index: Option<crate::operands::ParsedIndirectMemoryReferenceIndex>,
    displacement: Option<Expression>,
    address_size: AddressSize,
    start: nat,
)
    requires
        base is Some && base->Some_0.kind == RegisterKind::InstructionPointer,
        !is_vsib_index(index),
        address_size != AddressSize::Bits16,
    ensures
        ({
            let rm = Some(
                SizedMnemonicArgument::IndirectMemoryReference {
                    displacement_size,
                    base,
                    index,
                    displacement,
                },
            );
            let e = addressing_emissions(
                SupportedOperationalMode::Protected,
                signature,
                rm,
                reg,
                address_size,
            );
            let r = addressing_relocations(SupportedOperationalMode::Protected, rm, address_size, start);
            &&& e == seq![
                Emission::Byte(mod_rm_byte(MOD_NO_DISPLACEMENT, signature.reg_k_spec(reg), RBP_CODE)),
                Emission::Byte(0),
                Emission::Byte(0),
                Emission::Byte(0),
                Emission::Byte(0),
            ]
            &&& r.len() == 1
            &&& r[0].kind == RelocationKind::JumpTargetRelative
            &&& r[0].target is Bare
            &&& r[0].offset == (start + 1) as usize
            &&& r[0].size == Size::DWORD
        }),
{
    reveal(addressing_emissions);
    reveal(addressing_relocations);
    lemma_zero_dword();
    let rm = Some(
        SizedMnemonicArgument::IndirectMemoryReference { displacement_size, base, index, displacement },
    );
    let e = addressing_emissions(SupportedOperationalMode::Protected, signature, rm, reg, address_size);
    assert(e =~= seq![
        Emission::Byte(mod_rm_byte(MOD_NO_DISPLACEMENT, signature.reg_k_spec(reg), RBP_CODE)),
        Emission::Byte(0),
        Emission::Byte(0),
        Emission::Byte(0),
        Emission::Byte(0),
    ]);
}

/// Displacement-only addressing in 64-bit mode: a ModR/M byte whose r/m field
/// is `RSP`, then the SIB byte `(0, RSP, RBP)` = `0x25`; never the 32-bit
/// form with `RBP` in the r/m field.
pub proof fn lemma_displacement_only_in_long_mode(
    signature: MnemonicDefinitionSignature,
    reg: Option<SizedMnemonicArgument>,
    displacement_size: Option<Size>,
    displacement: Option<Expression>,
    address_size: AddressSize,
)
    requires
        address_size != AddressSize::Bits16,
    ensures
        ({
            let rm = Some(
                SizedMnemonicArgument::IndirectMemoryReference {
                    displacement_size,
                    base: None,
                    index: None,
                    displacement,
                },
            );
            let e = addressing_emissions(SupportedOperationalMode::Long, signature, rm, reg, address_size);
            &&& e.len() >= 2
            &&& e[0] == Emission::Byte(
                mod_rm_byte(MOD_NO_DISPLACEMENT, signature.reg_k_spec(reg), RSP_CODE),
            )
            &&& e[0]->Byte_0 & 7 == RSP_CODE
            &&& e[1] == Emission::Byte(mod_rm_byte(0, RSP_CODE, RBP_CODE))
            &&& e[1] == Emission::Byte(0x25)
        }),
{
    reveal(addressing_emissions);
    let k = signature.reg_k_spec(reg);
    assert(mod_rm_byte(0, 4, 5) == 0x25) by (bit_vector);
    let b = mod_rm_byte(MOD_NO_DISPLACEMENT, k, RSP_CODE);
    assert(((((0u8 << 6u8) | ((k & 7) << 3u8) | (4u8 & 7)) as u8) & 7) == 4) by (bit_vector);
}

/// Ordinary addressing over an `RBP`-like base without displacement uses
/// MOD `01` with a zero 8-bit displacement, never MOD `00`.
pub proof fn lemma_rbp_base_gets_zero_displacement(
    mode: SupportedOperationalMode,
    signature: MnemonicDefinitionSignature,
    reg: Option<SizedMnemonicArgument>,
    displacement_size: Option<Size>,
    base: Option<crate::registers::Register>,
    index: Option<crate::operands::ParsedIndirectMemoryReferenceIndex>,
    address_size: AddressSize,
)
    requires
        is_rbp_like_base(base),
        base->Some_0.kind != RegisterKind::InstructionPointer,
        !is_vsib_index(index),
        address_size != AddressSize::Bits16,
    ensures
        ({
            let rm = Some(
                SizedMnemonicArgument::IndirectMemoryReference {
                    displacement_size,
                    base,
                    index,
                    displacement: None,
                },
            );
            let e = addressing_emissions(mode, signature, rm, reg, address_size);
            &&& ordinary_mode(displacement_size, base, None) == MOD_DISPLACEMENT_8
            &&& e.len() >= 2
            &&& e[0] is Byte && e[0]->Byte_0 >> 6u8 == MOD_DISPLACEMENT_8
            &&& e.last() == Emission::Byte(0)
        }),
{
    reveal(addressing_emissions);
    let k = signature.reg_k_spec(reg);
    let c = base->Some_0.code;
    assert(((((1u8 << 6u8) | ((k & 7) << 3u8) | (c & 7)) as u8) >> 6u8) == 1) by (bit_vector);
    assert(((((1u8 << 6u8) | ((k & 7) << 3u8) | (4u8 & 7)) as u8) >> 6u8) == 1) by (bit_vector);
}

/// Number of prefix bytes: the VEX or XOP group, else the legacy prefixes and
/// REX.
pub open spec fn prefix_length(
    mode: SupportedOperationalMode,
    signature: MnemonicDefinitionSignature,
    p: PrefixRequirements,
    opcode: Seq<u8>,
    reg: Option<SizedMnemonicArgument>,
    rm: Option<SizedMnemonicArgument>,
    vvvv: Option<SizedMnemonicArgument>,
) -> nat {
    if uses_vex_or_xop(signature) {
        if uses_two_byte_vex(mode, signature, reg, rm, opcode[0], p, vvvv) {
            2
        } else {
            3
        }
    } else {
        count(p.legacy_prefix_modification is Some) + count(p.size_prefix_is_needed) + count(
            p.rex_prefix_is_needed,
        )
    }
}

pub open spec fn count(b: bool) -> nat {
    if b {
        1
    } else {
        0
    }
}

/// Number of ModR/M bytes of the r/m operand.
pub open spec fn mod_rm_length(rm: Option<SizedMnemonicArgument>) -> nat {
    match rm {
        Some(SizedMnemonicArgument::DirectRegisterReference { .. }) => 1,
        Some(SizedMnemonicArgument::IndirectJumpTarget { .. }) => 1,
        Some(SizedMnemonicArgument::IndirectMemoryReference { .. }) => 1,
        _ => 0,
    }
}

/// Number of SIB bytes of the r/m operand.
pub open spec fn sib_length(
    mode: SupportedOperationalMode,
    rm: Option<SizedMnemonicArgument>,
    address_size: AddressSize,
) -> nat {
    match rm {
        Some(SizedMnemonicArgument::IndirectMemoryReference { base, index, .. }) => {
            if is_vsib_index(index) {
                1
            } else if address_size == AddressSize::Bits16 || is_rip_base(base) {
                0
            } else if index is Some || (base is None && mode == SupportedOperationalMode::Long) {
                1
            } else {
                0
            }
        },
        _ => 0,
    }
}

/// Number of displacement bytes of the r/m operand.
pub open spec fn displacement_length(
    rm: Option<SizedMnemonicArgument>,
    address_size: AddressSize,
) -> nat {
    match rm {
        Some(SizedMnemonicArgument::IndirectJumpTarget { .. }) => 4,
        Some(
            SizedMnemonicArgument::IndirectMemoryReference {
                displacement_size,
                base,
                index,
                displacement,
            },
        ) => {
            if is_vsib_index(index) {
                if vsib_mode(displacement_size, base, displacement) == MOD_DISPLACEMENT_8 {
                    1
                } else {
                    4
                }
            } else if address_size == AddressSize::Bits16 {
                let m = sixteen_bit_mode(displacement_size, base, displacement);
                if m == MOD_DISPLACEMENT_8 {
                    1
                } else if m == MOD_DISPLACEMENT_32 {
                    2
                } else {
                    0
                }
            } else if is_rip_base(base) {
                4
            } else {
                let m = ordinary_mode(displacement_size, base, displacement);
                if displacement is Some {
                    if m == MOD_DISPLACEMENT_8 {
                        1
                    } else {
                        4
                    }
                } else if base is None {
                    4
                } else if m == MOD_DISPLACEMENT_8 {
                    1
                } else {
                    0
                }
            }
        },
        _ => 0,
    }
}

pub open spec fn immediate_size(a: SizedMnemonicArgument) -> nat {
    match a {
        SizedMnemonicArgument::Immediate { size, .. } => size_in_bytes(size),
        SizedMnemonicArgument::JumpTarget { size, .. } => size_in_bytes(size),
        _ => 0,
    }
}

/// Sum of the sizes of the immediates and jump targets.
pub open spec fn immediates_size(s: Seq<SizedMnemonicArgument>) -> nat
    decreases s.len(),
{
    if s.len() == 0 {
        0
    } else {
        immediates_size(s.drop_last()) + immediate_size(s.last())
    }
}

pub proof fn lemma_width_one(e: Emission)
    ensures
        stream_width(seq![e]) == emission_width(e),
{
    assert(seq![e].drop_last() =~= Seq::<Emission>::empty());
    assert(stream_width(Seq::<Emission>::empty()) == 0);
}

pub proof fn lemma_width_all_bytes(s: Seq<Emission>)
    requires
        forall|i: int| 0 <= i < s.len() ==> #[trigger] s[i] is Byte,
    ensures
        stream_width(s) == s.len(),
    decreases s.len(),
{
    if s.len() > 0 {
        let t = s.drop_last();
        assert forall|i: int| 0 <= i < t.len() implies #[trigger] t[i] is Byte by {
            assert(t[i] == s[i]);
        }
        lemma_width_all_bytes(t);
    }
}

proof fn lemma_width_three(a: Seq<Emission>, b: Seq<Emission>, c: Seq<Emission>)
    ensures
        stream_width(a + b + c) == stream_width(a) + stream_width(b) + stream_width(c),
{
    lemma_width_concat(a, b);
    lemma_width_concat(a + b, c);
}

proof fn lemma_zero_dword_width()
    ensures
        stream_width(zero_dword()) == 4,
{
    lemma_byte_emissions_width(le_bytes(0, 4));
}

proof fn lemma_sib_width(index: ParsedIndirectMemoryReferenceIndex, base_code: u8)
    ensures
        stream_width(sib_emissions(index, base_code)) == 1,
{
    match index.expression {
        Some(e) => lemma_width_one(sib_emissions(index, base_code)[0]),
        None => lemma_width_one(sib_emissions(index, base_code)[0]),
    }
    assert(sib_emissions(index, base_code) =~= seq![sib_emissions(index, base_code)[0]]);
}

proof fn lemma_slot_width(e: Expression, size: Size)
    ensures
        stream_width(displacement_slot(e, size)) == size_in_bytes(size),
{
    lemma_width_one(Emission::Slot(Statement::SignedExpression { value: e, size }));
}

pub proof fn lemma_prefix_width(
    mode: SupportedOperationalMode,
    signature: MnemonicDefinitionSignature,
    p: PrefixRequirements,
    opcode: Seq<u8>,
    reg: Option<SizedMnemonicArgument>,
    rm: Option<SizedMnemonicArgument>,
    vvvv: Option<SizedMnemonicArgument>,
)
    ensures
        stream_width(prefix_emissions(mode, signature, p, opcode, reg, rm, vvvv)) == prefix_length(
            mode,
            signature,
            p,
            opcode,
            reg,
            rm,
            vvvv,
        ),
{
    reveal(prefix_emissions);
    let pre = prefix_emissions(mode, signature, p, opcode, reg, rm, vvvv);
    assert forall|i: int| 0 <= i < pre.len() implies #[trigger] pre[i] is Byte by {
        if !uses_vex_or_xop(signature) {
            let legacy = legacy_prefix_emissions(p);
            if i < legacy.len() {
                let first = optional_byte(p.legacy_prefix_modification);
                if i < first.len() {
                    assert(legacy[i] == first[i]);
                } else {
                    assert(legacy[i] == optional_byte(
                        if p.size_prefix_is_needed { Some(OPERAND_SIZE_OVERRIDE_PREFIX) } else { None },
                    )[i - first.len()]);
                }
            }
        }
    }
    lemma_width_all_bytes(pre);
}

proof fn lemma_opcode_width(
    signature: MnemonicDefinitionSignature,
    opcode: Seq<u8>,
    rm: Option<SizedMnemonicArgument>,
)
    requires
        signature.flags.short_arg ==> opcode.len() >= 1,
    ensures
        stream_width(opcode_emissions(signature, opcode, rm)) == opcode.len(),
{
    let e = opcode_emissions(signature, opcode, rm);
    if signature.flags.short_arg {
        lemma_byte_emissions_width(opcode.drop_last());
        lemma_width_concat(byte_emissions(opcode.drop_last()), seq![e.last()]);
        lemma_width_one(e.last());
        assert(e =~= byte_emissions(opcode.drop_last()) + seq![e.last()]);
    } else {
        lemma_byte_emissions_width(opcode);
    }
}

pub proof fn lemma_addressing_width(
    mode: SupportedOperationalMode,
    signature: MnemonicDefinitionSignature,
    rm: Option<SizedMnemonicArgument>,
    reg: Option<SizedMnemonicArgument>,
    address_size: AddressSize,
)
    requires
        rm_consistent(rm, address_size),
    ensures
        stream_width(addressing_emissions(mode, signature, rm, reg, address_size)) == mod_rm_length(
            rm,
        ) + sib_length(mode, rm, address_size) + displacement_length(rm, address_size),
{
    reveal(addressing_emissions);
    let k = signature.reg_k_spec(reg);
    match rm {
        Some(SizedMnemonicArgument::DirectRegisterReference { register, .. }) => {
            lemma_width_one(Emission::Byte(mod_rm_byte(MOD_DIRECT, k, register.code)));
        },
        Some(SizedMnemonicArgument::IndirectJumpTarget { .. }) => {
            let first = Emission::Byte(mod_rm_byte(MOD_NO_DISPLACEMENT, k, RBP_CODE));
            lemma_width_one(first);
            lemma_zero_dword_width();
            lemma_width_concat(seq![first], zero_dword());
        },
        Some(
            SizedMnemonicArgument::IndirectMemoryReference {
                displacement_size,
                base,
                index,
                displacement,
            },
        ) => {
            lemma_zero_dword_width();
            lemma_width_one(Emission::Byte(0));
            if is_vsib_index(index) {
                let m = vsib_mode(displacement_size, base, displacement);
                let base_code = match base {
                    Some(b) => b.code,
                    None => RBP_CODE,
                };
                let first = seq![Emission::Byte(mod_rm_byte(m, k, RSP_CODE))];
                lemma_width_one(first[0]);
                lemma_sib_width(index->Some_0, base_code);
                let d = match displacement {
                    Some(e) => displacement_slot(e, if m == MOD_DISPLACEMENT_8 { Size::BYTE } else { Size::DWORD }),
                    None => if m == MOD_DISPLACEMENT_8 {
                        seq![Emission::Byte(0)]
                    } else {
                        zero_dword()
                    },
                };
                match displacement {
                    Some(e) => lemma_slot_width(e, if m == MOD_DISPLACEMENT_8 { Size::BYTE } else { Size::DWORD }),
                    None => {},
                }
                lemma_width_three(first, sib_emissions(index->Some_0, base_code), d);
            } else if address_size == AddressSize::Bits16 {
                let b = base->Some_0;
                let m = sixteen_bit_mode(displacement_size, Some(b), displacement);
                let first = seq![Emission::Byte(mod_rm_byte(m, k, b.code))];
                lemma_width_one(first[0]);
                let d = match displacement {
                    Some(e) => displacement_slot(e, if m == MOD_DISPLACEMENT_8 { Size::BYTE } else { Size::WORD }),
                    None => if m == MOD_DISPLACEMENT_8 {
                        seq![Emission::Byte(0)]
                    } else {
                        Seq::empty()
                    },
                };
                match displacement {
                    Some(e) => lemma_slot_width(e, if m == MOD_DISPLACEMENT_8 { Size::BYTE } else { Size::WORD }),
                    None => {
                        assert(stream_width(Seq::<Emission>::empty()) == 0);
                    },
                }
                lemma_width_concat(first, d);
            } else if is_rip_base(base) {
                let first = seq![Emission::Byte(mod_rm_byte(MOD_NO_DISPLACEMENT, k, RBP_CODE))];
                lemma_width_one(first[0]);
                let d = match mode {
                    SupportedOperationalMode::Long => match displacement {
                        Some(e) => displacement_slot(e, Size::DWORD),
                        None => zero_dword(),
                    },
                    SupportedOperationalMode::Protected => zero_dword(),
                };
                match displacement {
                    Some(e) => lemma_slot_width(e, Size::DWORD),
                    None => {},
                }
                lemma_width_concat(first, d);
            } else {
                let m = ordinary_mode(displacement_size, base, displacement);
                let head = ordinary_mod_rm_and_sib(mode, k, m, base, index);
                match index {
                    Some(i) => {
                        let first = seq![Emission::Byte(mod_rm_byte(m, k, RSP_CODE))];
                        let base_code = match base {
                            Some(b) => b.code,
                            None => RBP_CODE,
                        };
                        lemma_width_one(first[0]);
                        lemma_sib_width(i, base_code);
                        lemma_width_concat(first, sib_emissions(i, base_code));
                    },
                    None => {
                        lemma_width_all_bytes(head);
                    },
                }
                let d = match displacement {
                    Some(e) => displacement_slot(e, if m == MOD_DISPLACEMENT_8 { Size::BYTE } else { Size::DWORD }),
                    None => if base is None {
                        zero_dword()
                    } else if m == MOD_DISPLACEMENT_8 {
                        seq![Emission::Byte(0)]
                    } else {
                        Seq::empty()
                    },
                };
                match displacement {
                    Some(e) => lemma_slot_width(e, if m == MOD_DISPLACEMENT_8 { Size::BYTE } else { Size::DWORD }),
                    None => {
                        assert(stream_width(Seq::<Emission>::empty()) == 0);
                    },
                }
                lemma_width_concat(head, d);
            }
        },
        _ => {
            assert(stream_width(Seq::<Emission>::empty()) == 0);
        },
    }
}

proof fn lemma_immediates_width(s: Seq<SizedMnemonicArgument>)
    requires
        immediates_consistent(s),
    ensures
        stream_width(immediates_emissions(s)) == immediates_size(s),
    decreases s.len(),
{
    if s.len() == 0 {
        assert(stream_width(Seq::<Emission>::empty()) == 0);
    } else {
        let t = s.drop_last();
        assert forall|i: int| 0 <= i < t.len() implies is_immediate_like(#[trigger] t[i]) by {
            assert(t[i] == s[i]);
        }
        lemma_immediates_width(t);
        assert(is_immediate_like(s[s.len() - 1]));
        lemma_immediate_width(s.last());
        lemma_width_concat(immediates_emissions(t), immediate_emissions(s.last()));
    }
}

/// The number of bytes an instruction takes is the sum of its prefix bytes,
/// opcode bytes, ModR/M byte (0 or 1), SIB byte (0 or 1), displacement
/// bytes and immediate bytes, each a function of the signature, the operands
/// and the mode alone.
pub proof fn lemma_instruction_length(
    mode: SupportedOperationalMode,
    signature: MnemonicDefinitionSignature,
    address_size: AddressSize,
    p: PrefixRequirements,
    reg: Option<SizedMnemonicArgument>,
    rm: Option<SizedMnemonicArgument>,
    vvvv: Option<SizedMnemonicArgument>,
    ireg: Option<SizedMnemonicArgument>,
    immediate_opcode_byte: Option<u8>,
    immediates: Seq<SizedMnemonicArgument>,
)
    requires
        operands_consistent(signature, address_size, rm, ireg, immediates),
    ensures
        ({
            let opcode = signature.opcode_bytes@;
            let addressed = rm_after_opcode(signature, rm);
            stream_width(
                instruction_emissions(
                    mode,
                    signature,
                    address_size,
                    p,
                    reg,
                    rm,
                    vvvv,
                    ireg,
                    immediate_opcode_byte,
                    immediates,
                ),
            ) == prefix_length(mode, signature, p, opcode, reg, rm, vvvv) + opcode_tail(
                signature,
                opcode,
            ).len() + mod_rm_length(addressed) + sib_length(mode, addressed, address_size)
                + displacement_length(addressed, address_size) + count(
                immediate_opcode_byte is Some,
            ) + count(ireg is Some && ireg->Some_0 is DirectRegisterReference) + immediates_size(
                immediates_after_register(ireg, immediates),
            )
        }),
{
    let opcode = signature.opcode_bytes@;
    let tail = opcode_tail(signature, opcode);
    let addressed = rm_after_opcode(signature, rm);
    let a = prefix_emissions(mode, signature, p, opcode, reg, rm, vvvv);
    let b = opcode_emissions(signature, tail, rm);
    let c = addressing_emissions(mode, signature, addressed, reg, address_size);
    let d = optional_byte(immediate_opcode_byte);
    let e = register_in_immediate_emissions(ireg, immediates);
    let f = immediates_emissions(immediates_after_register(ireg, immediates));
    lemma_prefix_width(mode, signature, p, opcode, reg, rm, vvvv);
    lemma_opcode_width(signature, tail, rm);
    lemma_addressing_width(mode, signature, addressed, reg, address_size);
    lemma_immediates_width(immediates_after_register(ireg, immediates));
    match immediate_opcode_byte {
        Some(x) => lemma_width_one(Emission::Byte(x)),
        None => {
            assert(stream_width(Seq::<Emission>::empty()) == 0);
        },
    }
    match ireg {
        Some(SizedMnemonicArgument::DirectRegisterReference { .. }) => lemma_width_one(e[0]),
        _ => {
            assert(stream_width(Seq::<Emission>::empty()) == 0);
        },
    }
    assert(e.len() == 1 ==> e =~= seq![e[0]]);
    assert(d.len() == 1 ==> d =~= seq![d[0]]);
    lemma_width_concat(a, b);
    lemma_width_concat(a + b, c);
    lemma_width_concat(a + b + c, d);
    lemma_width_concat(a + b + c + d, e);
    lemma_width_concat(a + b + c + d + e, f);
}

} // verus!
