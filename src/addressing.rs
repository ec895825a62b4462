use vstd::prelude::*;
use crate::operands::{
    scale_field, is_vsib_index, valid_scale, size_in_bytes, AddressSize, Expression, JumpVariant,
    MnemonicDefinitionSignature, ParsedIndirectMemoryReferenceIndex, Size, SizedMnemonicArgument,
    SupportedOperationalMode,
};
use crate::registers::{
    is_rbp_like_base, is_rip_base, low_bits, Register, RegisterIdentifier, RBP_CODE, RSP_CODE,
};
use crate::laws::{displacement_length, lemma_addressing_width, mod_rm_length, sib_length};
use crate::relocations::{Relocation, RelocationKind, Relocations};
use crate::statements::{
    byte_emissions, le_bytes, lemma_width_concat, Emission, Statement, StatementsBuffer,
};

verus! {

/// MOD field: no displacement.
pub const MOD_NO_DISPLACEMENT: u8 = 0;

/// MOD field: 8-bit displacement.
pub const MOD_DISPLACEMENT_8: u8 = 1;

/// MOD field: 32-bit (16-bit under 16-bit addressing) displacement.
pub const MOD_DISPLACEMENT_32: u8 = 2;

/// MOD field: register operand.
pub const MOD_DIRECT: u8 = 3;

/// A ModR/M byte `(mod << 6) | (reg << 3) | rm`, or a SIB byte
/// `(scale << 6) | (index << 3) | base`, from register numbers.
pub open spec fn mod_rm_byte(mod_or_scale: u8, reg1: u8, reg2: u8) -> u8 {
    ((mod_or_scale << 6u8) | (low_bits(reg1) << 3u8) | low_bits(reg2)) as u8
}

/// Four zero bytes: a 32-bit placeholder.
pub open spec fn zero_dword() -> Seq<Emission> {
    byte_emissions(le_bytes(0, 4))
}

/// A signed displacement slot.
pub open spec fn displacement_slot(e: Expression, size: Size) -> Seq<Emission> {
    seq![Emission::Slot(Statement::SignedExpression { value: e, size })]
}

/// The SIB byte for an index over `base_code`: a literal byte, or a slot when
/// the scale waits for an expression.
pub open spec fn sib_emissions(index: ParsedIndirectMemoryReferenceIndex, base_code: u8) -> Seq<
    Emission,
> {
    match index.expression {
        Some(e) => seq![
            Emission::Slot(
                Statement::ScaledIndexByte {
                    scale: index.scale,
                    expression: e,
                    index: low_bits(index.register.code),
                    base: low_bits(base_code),
                },
            ),
        ],
        None => seq![
            Emission::Byte(mod_rm_byte(scale_field(index.scale), index.register.code, base_code)),
        ],
    }
}

/// Displacement mode with a base register, as VSIB and 16-bit addressing
/// choose it when a displacement is given.
pub open spec fn displacement_mode(displacement_size: Option<Size>) -> u8 {
    if displacement_size == Some(Size::BYTE) {
        MOD_DISPLACEMENT_8
    } else {
        MOD_DISPLACEMENT_32
    }
}

pub open spec fn vsib_mode(
    displacement_size: Option<Size>,
    base: Option<Register>,
    displacement: Option<Expression>,
) -> u8 {
    if base is None {
        MOD_NO_DISPLACEMENT
    } else if displacement is Some {
        displacement_mode(displacement_size)
    } else {
        MOD_DISPLACEMENT_8
    }
}

/// VSIB: ModR/M with `RSP`, always a SIB byte, always a displacement.
pub open spec fn vsib_emissions(
    reg_k: u8,
    displacement_size: Option<Size>,
    base: Option<Register>,
    index: ParsedIndirectMemoryReferenceIndex,
    displacement: Option<Expression>,
) -> Seq<Emission> {
    let m = vsib_mode(displacement_size, base, displacement);
    let base_code = match base {
        Some(b) => b.code,
        None => RBP_CODE,
    };
    seq![Emission::Byte(mod_rm_byte(m, reg_k, RSP_CODE))] + sib_emissions(index, base_code)
        + match displacement {
        Some(e) => displacement_slot(e, if m == MOD_DISPLACEMENT_8 { Size::BYTE } else { Size::DWORD }),
        None => if m == MOD_DISPLACEMENT_8 {
            seq![Emission::Byte(0)]
        } else {
            zero_dword()
        },
    }
}

pub open spec fn sixteen_bit_mode(
    displacement_size: Option<Size>,
    base: Option<Register>,
    displacement: Option<Expression>,
) -> u8 {
    if displacement is Some {
        displacement_mode(displacement_size)
    } else if is_rbp_like_base(base) {
        MOD_DISPLACEMENT_8
    } else {
        MOD_NO_DISPLACEMENT
    }
}

/// 16-bit addressing: the base stands for the base and index combination;
/// a ModR/M byte and a 16-bit or 8-bit displacement.
pub open spec fn sixteen_bit_emissions(
    reg_k: u8,
    displacement_size: Option<Size>,
    base: Register,
    displacement: Option<Expression>,
) -> Seq<Emission> {
    let m = sixteen_bit_mode(displacement_size, Some(base), displacement);
    seq![Emission::Byte(mod_rm_byte(m, reg_k, base.code))] + match displacement {
        Some(e) => displacement_slot(e, if m == MOD_DISPLACEMENT_8 { Size::BYTE } else { Size::WORD }),
        None => if m == MOD_DISPLACEMENT_8 {
            seq![Emission::Byte(0)]
        } else {
            Seq::empty()
        },
    }
}

/// RIP-relative: ModR/M `(00, reg, RBP)` and a 32-bit displacement; in
/// 32-bit mode four zero bytes that a relocation fills.
pub open spec fn rip_relative_emissions(
    mode: SupportedOperationalMode,
    reg_k: u8,
    displacement: Option<Expression>,
) -> Seq<Emission> {
    seq![Emission::Byte(mod_rm_byte(MOD_NO_DISPLACEMENT, reg_k, RBP_CODE))] + match mode {
        SupportedOperationalMode::Long => match displacement {
            Some(e) => displacement_slot(e, Size::DWORD),
            None => zero_dword(),
        },
        SupportedOperationalMode::Protected => zero_dword(),
    }
}

pub open spec fn rip_relative_relocations(
    mode: SupportedOperationalMode,
    displacement: Option<Expression>,
    start: nat,
) -> Seq<Relocation> {
    match mode {
        SupportedOperationalMode::Long => Seq::empty(),
        SupportedOperationalMode::Protected => seq![
            Relocation {
                kind: RelocationKind::JumpTargetRelative,
                target: JumpVariant::Bare(
                    match displacement {
                        Some(e) => e,
                        None => Expression::Constant(0),
                    },
                ),
                offset: (start + 1) as usize,
                size: Size::DWORD,
            },
        ],
    }
}

pub open spec fn ordinary_mode(
    displacement_size: Option<Size>,
    base: Option<Register>,
    displacement: Option<Expression>,
) -> u8 {
    if is_rbp_like_base(base) && displacement is None {
        MOD_DISPLACEMENT_8
    } else if displacement is None || base is None {
        MOD_NO_DISPLACEMENT
    } else {
        displacement_mode(displacement_size)
    }
}

/// ModR/M and SIB of ordinary 32/64-bit addressing.
pub open spec fn ordinary_mod_rm_and_sib(
    mode: SupportedOperationalMode,
    reg_k: u8,
    m: u8,
    base: Option<Register>,
    index: Option<ParsedIndirectMemoryReferenceIndex>,
) -> Seq<Emission> {
    match index {
        Some(i) => seq![Emission::Byte(mod_rm_byte(m, reg_k, RSP_CODE))] + sib_emissions(
            i,
            match base {
                Some(b) => b.code,
                None => RBP_CODE,
            },
        ),
        None => match base {
            Some(b) => seq![Emission::Byte(mod_rm_byte(m, reg_k, b.code))],
            None => match mode {
                SupportedOperationalMode::Protected => seq![
                    Emission::Byte(mod_rm_byte(m, reg_k, RBP_CODE)),
                ],
                SupportedOperationalMode::Long => seq![
                    Emission::Byte(mod_rm_byte(m, reg_k, RSP_CODE)),
                    Emission::Byte(mod_rm_byte(0, RSP_CODE, RBP_CODE)),
                ],
            },
        },
    }
}

/// Ordinary 32/64-bit addressing.
pub open spec fn ordinary_emissions(
    mode: SupportedOperationalMode,
    reg_k: u8,
    displacement_size: Option<Size>,
    base: Option<Register>,
    index: Option<ParsedIndirectMemoryReferenceIndex>,
    displacement: Option<Expression>,
) -> Seq<Emission> {
    let m = ordinary_mode(displacement_size, base, displacement);
    ordinary_mod_rm_and_sib(mode, reg_k, m, base, index) + match displacement {
        Some(e) => displacement_slot(e, if m == MOD_DISPLACEMENT_8 { Size::BYTE } else { Size::DWORD }),
        None => if base is None {
            zero_dword()
        } else if m == MOD_DISPLACEMENT_8 {
            seq![Emission::Byte(0)]
        } else {
            Seq::empty()
        },
    }
}

/// A memory operand needs a base register under 16-bit addressing (the
/// base stands for the whole base and index combination), and a scale of
/// 1, 2, 4 or 8.
pub open spec fn memory_operand_consistent(
    base: Option<Register>,
    index: Option<ParsedIndirectMemoryReferenceIndex>,
    address_size: AddressSize,
) -> bool {
    &&& !is_vsib_index(index) && address_size == AddressSize::Bits16 ==> base is Some
    &&& index is Some ==> valid_scale(index->Some_0.scale)
}

/// What a memory operand encodes to, by the first addressing form that applies:
/// VSIB, 16-bit, RIP-relative, ordinary.
pub open spec fn indirect_emissions(
    mode: SupportedOperationalMode,
    reg_k: u8,
    displacement_size: Option<Size>,
    base: Option<Register>,
    index: Option<ParsedIndirectMemoryReferenceIndex>,
    displacement: Option<Expression>,
    address_size: AddressSize,
) -> Seq<Emission> {
    if is_vsib_index(index) {
        vsib_emissions(reg_k, displacement_size, base, index->Some_0, displacement)
    } else if address_size == AddressSize::Bits16 {
        sixteen_bit_emissions(reg_k, displacement_size, base->Some_0, displacement)
    } else if is_rip_base(base) {
        rip_relative_emissions(mode, reg_k, displacement)
    } else {
        ordinary_emissions(mode, reg_k, displacement_size, base, index, displacement)
    }
}

pub open spec fn indirect_relocations(
    mode: SupportedOperationalMode,
    base: Option<Register>,
    index: Option<ParsedIndirectMemoryReferenceIndex>,
    displacement: Option<Expression>,
    address_size: AddressSize,
    start: nat,
) -> Seq<Relocation> {
    if !is_vsib_index(index) && address_size != AddressSize::Bits16 && is_rip_base(base) {
        rip_relative_relocations(mode, displacement, start)
    } else {
        Seq::empty()
    }
}

/// What the r/m operand encodes to after the opcode.
#[verifier::opaque]
pub open spec fn addressing_emissions(
    mode: SupportedOperationalMode,
    signature: MnemonicDefinitionSignature,
    rm: Option<SizedMnemonicArgument>,
    reg: Option<SizedMnemonicArgument>,
    address_size: AddressSize,
) -> Seq<Emission> {
    let reg_k = signature.reg_k_spec(reg);
    match rm {
        Some(SizedMnemonicArgument::DirectRegisterReference { register, .. }) => seq![
            Emission::Byte(mod_rm_byte(MOD_DIRECT, reg_k, register.code)),
        ],
        Some(SizedMnemonicArgument::IndirectJumpTarget { .. }) => seq![
            Emission::Byte(mod_rm_byte(MOD_NO_DISPLACEMENT, reg_k, RBP_CODE)),
        ] + zero_dword(),
        Some(
            SizedMnemonicArgument::IndirectMemoryReference {
                displacement_size,
                base,
                index,
                displacement,
            },
        ) => indirect_emissions(
            mode,
            reg_k,
            displacement_size,
            base,
            index,
            displacement,
            address_size,
        ),
        _ => Seq::empty(),
    }
}

/// The relocations of the r/m operand, whose ModR/M byte stands at `start`.
#[verifier::opaque]
pub open spec fn addressing_relocations(
    mode: SupportedOperationalMode,
    rm: Option<SizedMnemonicArgument>,
    address_size: AddressSize,
    start: nat,
) -> Seq<Relocation> {
    match rm {
        Some(SizedMnemonicArgument::IndirectJumpTarget { jump_variant, .. }) => seq![
            Relocation {
                kind: RelocationKind::JumpTargetRelative,
                target: jump_variant,
                offset: (start + 1) as usize,
                size: Size::DWORD,
            },
        ],
        Some(
            SizedMnemonicArgument::IndirectMemoryReference { base, index, displacement, .. },
        ) => indirect_relocations(mode, base, index, displacement, address_size, start),
        _ => Seq::empty(),
    }
}

impl StatementsBuffer {
    pub(crate) fn push_mod_rm_byte_or_scaled_index_byte(
        &mut self,
        mod_or_scale: u8,
        reg1: RegisterIdentifier,
        reg2: RegisterIdentifier,
    )
        requires
            old(self).wf(),
            old(self).stream_len() + 1 <= usize::MAX,
        ensures
            final(self).stream_len() == old(self).stream_len() + 1,
            final(self).wf(),
            final(self)@ == old(self)@.push(
                Emission::Byte(mod_rm_byte(mod_or_scale, reg1.code, reg2.code)),
            ),
    {
        let byte = (mod_or_scale << 6u8) | (reg1.code_and_7() << 3u8) | reg2.code_and_7();
        self.push_byte(byte)
    }

    /// The SIB byte of an index over `base`.
    fn push_scaled_index_byte(&mut self, index: ParsedIndirectMemoryReferenceIndex, base: RegisterIdentifier)
        requires
            old(self).wf(),
            old(self).stream_len() + 1 <= usize::MAX,
        ensures
            final(self).stream_len() == old(self).stream_len() + 1,
            final(self).wf(),
            final(self)@ == old(self)@ + sib_emissions(index, base.code),
    {
        let ParsedIndirectMemoryReferenceIndex { register, scale, expression } = index;
        let index_register_identifier = register.identifier();
        match expression {
            Some(expression) => self.push_scaled_index_byte_with_scale_calculated_by_expression(
                scale,
                expression,
                index_register_identifier.code_and_7(),
                base.code_and_7(),
            ),
            None => self.push_mod_rm_byte_or_scaled_index_byte(
                ParsedIndirectMemoryReferenceIndex::encode_scale(scale),
                index_register_identifier,
                base,
            ),
        }
        proof {
            assert(self@ =~= old(self)@ + sib_emissions(index, base.code));
        }
    }

    /// The r/m register itself: MOD `11`.
    fn direct_mod_rm_addressing(
        &mut self,
        mode: SupportedOperationalMode,
        signature: &MnemonicDefinitionSignature,
        reg: &Option<SizedMnemonicArgument>,
        rm: Register,
    ) -> (r: Relocations)
        requires
            old(self).wf(),
            old(self).stream_len() + 1 <= usize::MAX,
        ensures
            final(self).stream_len() == old(self).stream_len() + 1,
            final(self).wf(),
            final(self)@ == old(self)@.push(
                Emission::Byte(mod_rm_byte(MOD_DIRECT, signature.reg_k_spec(*reg), rm.code)),
            ),
            r.mode == mode,
            r.entries@.len() == 0,
    {
        let reg_k = signature.reg_k(reg);
        self.push_mod_rm_byte_or_scaled_index_byte(MOD_DIRECT, reg_k, rm.identifier());
        mode.new_relocations()
    }

    /// A jump through memory at a label: a 32-bit placeholder and its relocation.
    fn jump_target_relative_addressing(
        &mut self,
        mode: SupportedOperationalMode,
        signature: &MnemonicDefinitionSignature,
        reg: &Option<SizedMnemonicArgument>,
        target: JumpVariant,
    ) -> (r: Relocations)
        requires
            old(self).wf(),
            old(self).stream_len() + 5 <= usize::MAX,
        ensures
            final(self).stream_len() == old(self).stream_len() + 5,
            final(self).wf(),
            final(self)@ == old(self)@ + seq![
                Emission::Byte(
                    mod_rm_byte(MOD_NO_DISPLACEMENT, signature.reg_k_spec(*reg), RBP_CODE),
                ),
            ] + zero_dword(),
            r.mode == mode,
            r.entries@ == seq![
                Relocation {
                    kind: RelocationKind::JumpTargetRelative,
                    target,
                    offset: (old(self).stream_len() + 1) as usize,
                    size: Size::DWORD,
                },
            ],
    {
        let reg_k = signature.reg_k(reg);
        self.push_mod_rm_byte_or_scaled_index_byte(MOD_NO_DISPLACEMENT, reg_k, RegisterIdentifier::rbp());
        let offset = self.len();
        self.push_u32(0);
        let mut relocations = mode.new_relocations();
        relocations.push_jump_target_addressing(target, Size::DWORD, offset);
        proof {
            assert(relocations.entries@ =~= seq![
                Relocation {
                    kind: RelocationKind::JumpTargetRelative,
                    target,
                    offset: (old(self).stream_len() + 1) as usize,
                    size: Size::DWORD,
                },
            ]);
        }
        relocations
    }

    fn indirect_mod_rm_and_scaled_index_byte_addressing_mode_is_vector_scaled_index_byte(
        &mut self,
        reg_k: RegisterIdentifier,
        displacement_size: Option<Size>,
        base: Option<Register>,
        index: ParsedIndirectMemoryReferenceIndex,
        displacement: Option<Expression>,
    )
        requires
            old(self).wf(),
            old(self).stream_len() + 6 <= usize::MAX,
        ensures
            final(self).stream_len() <= old(self).stream_len() + 6,
            final(self).wf(),
            final(self)@ == old(self)@ + vsib_emissions(
                reg_k.code,
                displacement_size,
                base,
                index,
                displacement,
            ),
    {
        let ghost index_spec = index;
        let ghost displacement_spec = displacement;
        let (base_k, mod_) = match base {
            None => (RegisterIdentifier::rbp(), MOD_NO_DISPLACEMENT),
            Some(b) => (
                b.identifier(),
                match (&displacement, displacement_size) {
                    (Some(_), Some(Size::BYTE)) => MOD_DISPLACEMENT_8,
                    (Some(_), _) => MOD_DISPLACEMENT_32,
                    (None, _) => MOD_DISPLACEMENT_8,
                },
            ),
        };
        // A SIB byte always follows under VSIB: RSP in the r/m field says so.
        self.push_mod_rm_byte_or_scaled_index_byte(mod_, reg_k, RegisterIdentifier::rsp());
        self.push_scaled_index_byte(index, base_k);
        match displacement {
            Some(d) => self.push_signed_expression(
                d,
                if mod_ == MOD_DISPLACEMENT_8 { Size::BYTE } else { Size::DWORD },
            ),
            None => if mod_ == MOD_DISPLACEMENT_8 {
                self.push_byte(0);
            } else {
                self.push_u32(0);
            },
        }
        proof {
            assert(self@ =~= old(self)@ + vsib_emissions(
                reg_k.code,
                displacement_size,
                base,
                index_spec,
                displacement_spec,
            ));
        }
    }

    fn indirect_mod_rm_and_scaled_index_byte_addressing_mode_is_16_bit(
        &mut self,
        reg_k: RegisterIdentifier,
        displacement_size: Option<Size>,
        base: Register,
        displacement: Option<Expression>,
    )
        requires
            old(self).wf(),
            old(self).stream_len() + 3 <= usize::MAX,
        ensures
            final(self).stream_len() <= old(self).stream_len() + 3,
            final(self).wf(),
            final(self)@ == old(self)@ + sixteen_bit_emissions(
                reg_k.code,
                displacement_size,
                base,
                displacement,
            ),
    {
        let ghost displacement_spec = displacement;
        let some_base = Some(base);
        let mod_ = match (&displacement, displacement_size) {
            (Some(_), Some(Size::BYTE)) => MOD_DISPLACEMENT_8,
            (Some(_), _) => MOD_DISPLACEMENT_32,
            (None, _) => if Register::addressing_uses_rbp_base(&some_base) {
                MOD_DISPLACEMENT_8
            } else {
                MOD_NO_DISPLACEMENT
            },
        };
        // Only a ModR/M byte: the base register encodes base and index together.
        self.push_mod_rm_byte_or_scaled_index_byte(mod_, reg_k, base.identifier());
        match displacement {
            Some(d) => self.push_signed_expression(
                d,
                if mod_ == MOD_DISPLACEMENT_8 { Size::BYTE } else { Size::WORD },
            ),
            None => if mod_ == MOD_DISPLACEMENT_8 {
                self.push_byte(0);
            },
        }
        proof {
            assert(self@ =~= old(self)@ + sixteen_bit_emissions(
                reg_k.code,
                displacement_size,
                base,
                displacement_spec,
            ));
        }
    }

    fn indirect_mod_rm_and_scaled_index_byte_addressing_mode_is_rip_relative(
        &mut self,
        reg_k: RegisterIdentifier,
        displacement: Option<Expression>,
        mode: SupportedOperationalMode,
    ) -> (r: Relocations)
        requires
            old(self).wf(),
            old(self).stream_len() + 5 <= usize::MAX,
        ensures
            final(self).stream_len() == old(self).stream_len() + 5,
            final(self).wf(),
            final(self)@ == old(self)@ + rip_relative_emissions(mode, reg_k.code, displacement),
            r.mode == mode,
            r.entries@ == rip_relative_relocations(mode, displacement, old(self).stream_len()),
    {
        let ghost displacement_spec = displacement;
        self.push_mod_rm_byte_or_scaled_index_byte(MOD_NO_DISPLACEMENT, reg_k, RegisterIdentifier::rbp());
        let mut relocations = mode.new_relocations();
        match mode {
            SupportedOperationalMode::Long => match displacement {
                Some(d) => self.push_signed_expression(d, Size::DWORD),
                None => self.push_u32(0),
            },
            SupportedOperationalMode::Protected => {
                // 32-bit mode has no RIP-relative form: the displacement is
                // filled in through a relocation over a bare target.
                let offset = self.len();
                self.push_u32(0);
                let target = match displacement {
                    Some(d) => d,
                    None => Expression::zero(),
                };
                relocations.push_jump_target_addressing(JumpVariant::Bare(target), Size::DWORD, offset);
            },
        }
        proof {
            assert(self@ =~= old(self)@ + rip_relative_emissions(mode, reg_k.code, displacement_spec));
            assert(relocations.entries@ =~= rip_relative_relocations(
                mode,
                displacement_spec,
                old(self).stream_len(),
            ));
        }
        relocations
    }

    fn indirect_mod_rm_and_scaled_index_byte_addressing_mode_is_ordinary(
        &mut self,
        reg_k: RegisterIdentifier,
        displacement_size: Option<Size>,
        base: Option<Register>,
        index: Option<ParsedIndirectMemoryReferenceIndex>,
        displacement: Option<Expression>,
        mode: SupportedOperationalMode,
    )
        requires
            old(self).wf(),
            old(self).stream_len() + 6 <= usize::MAX,
        ensures
            final(self).stream_len() <= old(self).stream_len() + 6,
            final(self).wf(),
            final(self)@ == old(self)@ + ordinary_emissions(
                mode,
                reg_k.code,
                displacement_size,
                base,
                index,
                displacement,
            ),
    {
        let ghost index_spec = index;
        let ghost displacement_spec = displacement;
        let no_base = base.is_none();
        let no_displacement = displacement.is_none();
        let mod_ = if Register::addressing_uses_rbp_base(&base) && no_displacement {
            MOD_DISPLACEMENT_8
        } else if no_displacement || no_base {
            MOD_NO_DISPLACEMENT
        } else {
            match displacement_size {
                Some(Size::BYTE) => MOD_DISPLACEMENT_8,
                _ => MOD_DISPLACEMENT_32,
            }
        };
        let ghost after_mode = self@;
        match index {
            // An index needs a SIB byte; a missing base is encoded as RBP.
            Some(i) => {
                let base_k = match base {
                    Some(b) => b.identifier(),
                    None => RegisterIdentifier::rbp(),
                };
                self.push_mod_rm_byte_or_scaled_index_byte(mod_, reg_k, RegisterIdentifier::rsp());
                self.push_scaled_index_byte(i, base_k);
            },
            None => match base {
                Some(b) => self.push_mod_rm_byte_or_scaled_index_byte(mod_, reg_k, b.identifier()),
                // Displacement only.
                None => match mode {
                    SupportedOperationalMode::Protected => self.push_mod_rm_byte_or_scaled_index_byte(
                        mod_,
                        reg_k,
                        RegisterIdentifier::rbp(),
                    ),
                    // In 64-bit mode RBP alone would mean RIP-relative: escape
                    // through a SIB byte with no index and no base.
                    SupportedOperationalMode::Long => {
                        self.push_mod_rm_byte_or_scaled_index_byte(mod_, reg_k, RegisterIdentifier::rsp());
                        self.push_mod_rm_byte_or_scaled_index_byte(
                            0,
                            RegisterIdentifier::rsp(),
                            RegisterIdentifier::rbp(),
                        );
                    },
                },
            },
        }
        proof {
            assert(self@ =~= after_mode + ordinary_mod_rm_and_sib(mode, reg_k.code, mod_, base, index_spec));
        }
        let ghost after_mod_rm = self@;
        match displacement {
            Some(d) => self.push_signed_expression(
                d,
                if mod_ == MOD_DISPLACEMENT_8 { Size::BYTE } else { Size::DWORD },
            ),
            None => if no_base {
                self.push_u32(0);
            } else if mod_ == MOD_DISPLACEMENT_8 {
                self.push_byte(0);
            },
        }
        proof {
            assert(self@ =~= old(self)@ + ordinary_emissions(
                mode,
                reg_k.code,
                displacement_size,
                base,
                index_spec,
                displacement_spec,
            ));
        }
    }

    fn indirect_mod_rm_and_scaled_index_byte_addressing(
        &mut self,
        mode: SupportedOperationalMode,
        signature: &MnemonicDefinitionSignature,
        reg: &Option<SizedMnemonicArgument>,
        displacement_size: Option<Size>,
        base: Option<Register>,
        index: Option<ParsedIndirectMemoryReferenceIndex>,
        displacement: Option<Expression>,
        address_size: AddressSize,
    ) -> (r: Relocations)
        requires
            old(self).wf(),
            old(self).stream_len() + 6 <= usize::MAX,
            signature.wf(),
            memory_operand_consistent(base, index, address_size),
        ensures
            final(self).wf(),
            final(self).stream_len() <= old(self).stream_len() + 6,
            final(self)@ == old(self)@ + indirect_emissions(
                mode,
                signature.reg_k_spec(*reg),
                displacement_size,
                base,
                index,
                displacement,
                address_size,
            ),
            r.mode == mode,
            r.entries@ == indirect_relocations(
                mode,
                base,
                index,
                displacement,
                address_size,
                old(self).stream_len(),
            ),
            forall|i: int|
                0 <= i < r.entries@.len() ==> #[trigger] r.entries@[i].offset + size_in_bytes(
                    r.entries@[i].size,
                ) <= final(self).stream_len(),
    {
        let reg_k = signature.reg_k(reg);
        let addressing_mode_is_vector_scaled_index_byte =
            ParsedIndirectMemoryReferenceIndex::addressing_mode_is_vector_scaled_index_byte(&index);
        let addressing_mode_is_16bit = address_size.is_16_bit_addressing();
        let addressing_mode_is_rip_relative = Register::addressing_mode_is_rip_relative(&base);
        if addressing_mode_is_vector_scaled_index_byte {
            match index {
                Some(i) => self.indirect_mod_rm_and_scaled_index_byte_addressing_mode_is_vector_scaled_index_byte(
                    reg_k,
                    displacement_size,
                    base,
                    i,
                    displacement,
                ),
                None => {},
            }
            mode.new_relocations()
        } else if addressing_mode_is_16bit {
            match base {
                Some(b) => self.indirect_mod_rm_and_scaled_index_byte_addressing_mode_is_16_bit(
                    reg_k,
                    displacement_size,
                    b,
                    displacement,
                ),
                None => {},
            }
            mode.new_relocations()
        } else if addressing_mode_is_rip_relative {
            self.indirect_mod_rm_and_scaled_index_byte_addressing_mode_is_rip_relative(
                reg_k,
                displacement,
                mode,
            )
        } else {
            self.indirect_mod_rm_and_scaled_index_byte_addressing_mode_is_ordinary(
                reg_k,
                displacement_size,
                base,
                index,
                displacement,
                mode,
            );
            mode.new_relocations()
        }
    }

    /// Encodes the r/m operand: ModR/M, SIB and displacement as its form asks.
    pub(crate) fn push_addressing(
        &mut self,
        mode: SupportedOperationalMode,
        signature: &MnemonicDefinitionSignature,
        rm: Option<SizedMnemonicArgument>,
        reg: &Option<SizedMnemonicArgument>,
        address_size: AddressSize,
    ) -> (r: Relocations)
        requires
            old(self).wf(),
            old(self).stream_len() + 6 <= usize::MAX,
            signature.wf(),
            rm_consistent(rm, address_size),
        ensures
            final(self).wf(),
            final(self).stream_len() <= old(self).stream_len() + 6,
            final(self)@ == old(self)@ + addressing_emissions(mode, *signature, rm, *reg, address_size),
            final(self).stream_len() == old(self).stream_len() + mod_rm_length(rm) + sib_length(
                mode,
                rm,
                address_size,
            ) + displacement_length(rm, address_size),
            r.mode == mode,
            r.entries@ == addressing_relocations(mode, rm, address_size, old(self).stream_len()),
            forall|i: int|
                0 <= i < r.entries@.len() ==> #[trigger] r.entries@[i].offset + size_in_bytes(
                    r.entries@[i].size,
                ) <= final(self).stream_len(),
    {
        let ghost rm_spec = rm;
        proof {
            reveal(addressing_emissions);
            reveal(addressing_relocations);
        }
        let relocations = match rm {
            Some(SizedMnemonicArgument::DirectRegisterReference { register, .. }) => {
                self.direct_mod_rm_addressing(mode, signature, reg, register)
            },
            Some(SizedMnemonicArgument::IndirectJumpTarget { jump_variant, .. }) => {
                self.jump_target_relative_addressing(mode, signature, reg, jump_variant)
            },
            Some(
                SizedMnemonicArgument::IndirectMemoryReference {
                    displacement_size,
                    base,
                    index,
                    displacement,
                },
            ) => self.indirect_mod_rm_and_scaled_index_byte_addressing(
                mode,
                signature,
                reg,
                displacement_size,
                base,
                index,
                displacement,
                address_size,
            ),
            _ => {
                proof {
                    assert(self@ =~= old(self)@ + Seq::<Emission>::empty());
                }
                mode.new_relocations()
            },
        };
        proof {
            lemma_width_concat(
                old(self)@,
                addressing_emissions(mode, *signature, rm_spec, *reg, address_size),
            );
            lemma_addressing_width(mode, *signature, rm_spec, *reg, address_size);
        }
        relocations
    }
}

/// A memory operand, if the r/m operand is one, meets what its form needs.
pub open spec fn rm_consistent(rm: Option<SizedMnemonicArgument>, address_size: AddressSize) -> bool {
    match rm {
        Some(SizedMnemonicArgument::IndirectMemoryReference { base, index, .. }) => memory_operand_consistent(base, index, address_size),
        _ => true,
    }
}

} // verus!
