use vstd::prelude::*;
use crate::addressing::{addressing_emissions, addressing_relocations, rm_consistent};
use crate::error::InstructionEncodingError;
use crate::immediates::{
    immediates_after_register, immediates_consistent, immediates_emissions, immediates_fail,
    immediates_relocations, is_immediate_like, first_failure, register_in_immediate_consistent,
    register_in_immediate_emissions,
};
use crate::operands::{
    size_in_bytes, AddressSize, ParsedIndirectMemoryReferenceIndex, Size, MnemonicDefinitionSignature, SizedMnemonicArgument,
    SupportedOperationalMode,
};
use crate::prefixes::{
    legacy_prefix_emissions, opcode_tail, prefix_emissions, prefix_fails, uses_vex_or_xop,
    PrefixRequirements,
};
use crate::registers::low_bits;
use crate::operands::{is_vsib_index, valid_scale};
use crate::relocations::{Relocation, Relocations};
use crate::statements::{byte_emissions, optional_byte, stream_width, Emission, StatementsBuffer};

verus! {

/// Under `SHORT_ARG` there is a last opcode byte, the r/m operand is a
/// register, and adding its low bits to that byte does not overflow.
pub open spec fn short_arg_consistent(
    signature: MnemonicDefinitionSignature,
    opcode: Seq<u8>,
    rm: Option<SizedMnemonicArgument>,
) -> bool {
    signature.flags.short_arg ==> opcode.len() >= 1 && match rm {
        Some(SizedMnemonicArgument::DirectRegisterReference { register, .. }) => opcode.last()
            + low_bits(register.code) <= 0xFF,
        _ => false,
    }
}

/// The opcode bytes; under `SHORT_ARG` the last one carries the r/m register.
pub open spec fn opcode_emissions(
    signature: MnemonicDefinitionSignature,
    opcode: Seq<u8>,
    rm: Option<SizedMnemonicArgument>,
) -> Seq<Emission> {
    if signature.flags.short_arg {
        byte_emissions(opcode.drop_last()) + seq![
            Emission::Byte(
                (opcode.last() + low_bits(rm->Some_0->DirectRegisterReference_register.code)) as u8,
            ),
        ]
    } else {
        byte_emissions(opcode)
    }
}

/// The r/m operand left for addressing: none once the opcode has taken it.
pub open spec fn rm_after_opcode(
    signature: MnemonicDefinitionSignature,
    rm: Option<SizedMnemonicArgument>,
) -> Option<SizedMnemonicArgument> {
    if signature.flags.short_arg {
        None
    } else {
        rm
    }
}

/// The first table invariant that the signature and the operands break.
pub open spec fn consistency_error(
    signature: MnemonicDefinitionSignature,
    address_size: AddressSize,
    rm: Option<SizedMnemonicArgument>,
    ireg: Option<SizedMnemonicArgument>,
    immediates: Seq<SizedMnemonicArgument>,
) -> Option<InstructionEncodingError> {
    let tail = opcode_tail(signature, signature.opcode_bytes@);
    if signature.flags.vex_op && signature.flags.xop_op {
        Some(InstructionEncodingError::VexAndXopTogether)
    } else if signature.reg_extension is Some && signature.reg_extension->Some_0 >= 8 {
        Some(InstructionEncodingError::OpcodeExtensionOutOfRange)
    } else if uses_vex_or_xop(signature) && signature.opcode_bytes@.len() == 0 {
        Some(InstructionEncodingError::MissingMapSelector)
    } else if signature.flags.short_arg && tail.len() == 0 {
        Some(InstructionEncodingError::ShortArgumentWithoutOpcode)
    } else if signature.flags.short_arg && !(rm is Some
        && rm->Some_0 is DirectRegisterReference) {
        Some(InstructionEncodingError::ShortArgumentWithoutRegister)
    } else if signature.flags.short_arg && tail.last() + low_bits(
        rm->Some_0->DirectRegisterReference_register.code,
    ) > 0xFF {
        Some(InstructionEncodingError::ShortArgumentOpcodeOverflow)
    } else if !signature.flags.short_arg && rm is Some && rm->Some_0 is IndirectMemoryReference
        && !is_vsib_index(rm->Some_0->IndirectMemoryReference_index) && address_size
        == AddressSize::Bits16 && rm->Some_0->IndirectMemoryReference_base is None {
        Some(InstructionEncodingError::SixteenBitAddressingWithoutBase)
    } else if !signature.flags.short_arg && rm is Some && rm->Some_0 is IndirectMemoryReference
        && rm->Some_0->IndirectMemoryReference_index is Some && !valid_scale(
        rm->Some_0->IndirectMemoryReference_index->Some_0.scale,
    ) {
        Some(InstructionEncodingError::InvalidScale)
    } else if !register_in_immediate_consistent(ireg) {
        Some(InstructionEncodingError::RegisterInImmediateOutOfRange)
    } else if !immediates_consistent(immediates_after_register(ireg, immediates)) {
        Some(InstructionEncodingError::NotAnImmediate)
    } else {
        None
    }
}

/// The signature, the r/m operand and the register byte fit together.
pub open spec fn leading_operands_consistent(
    signature: MnemonicDefinitionSignature,
    address_size: AddressSize,
    rm: Option<SizedMnemonicArgument>,
    ireg: Option<SizedMnemonicArgument>,
    immediates: Seq<SizedMnemonicArgument>,
) -> bool {
    &&& signature.wf()
    &&& uses_vex_or_xop(signature) ==> signature.opcode_bytes@.len() >= 1
    &&& short_arg_consistent(signature, opcode_tail(signature, signature.opcode_bytes@), rm)
    &&& rm_consistent(rm_after_opcode(signature, rm), address_size)
    &&& register_in_immediate_consistent(ireg)
}

/// The signature and the operands fit together, as the mnemonic tables promise.
pub open spec fn operands_consistent(
    signature: MnemonicDefinitionSignature,
    address_size: AddressSize,
    rm: Option<SizedMnemonicArgument>,
    ireg: Option<SizedMnemonicArgument>,
    immediates: Seq<SizedMnemonicArgument>,
) -> bool {
    &&& leading_operands_consistent(signature, address_size, rm, ireg, immediates)
    &&& immediates_consistent(immediates_after_register(ireg, immediates))
}

/// The whole instruction, in stream order.
pub open spec fn instruction_emissions(
    mode: SupportedOperationalMode,
    signature: MnemonicDefinitionSignature,
    address_size: AddressSize,
    p: PrefixRequirements,
    reg: Option<SizedMnemonicArgument>,
    rm: Option<SizedMnemonicArgument>,
    vvvv: Option<SizedMnemonicArgument>,
    ireg: Option<SizedMnemonicArgument>,
    immediate_opcode_byte: Option<u8>,
    immediates: Seq<SizedMnemonicArgument>,
) -> Seq<Emission> {
    instruction_head_emissions(
        mode,
        signature,
        address_size,
        p,
        reg,
        rm,
        vvvv,
        ireg,
        immediate_opcode_byte,
        immediates,
    ) + immediates_emissions(immediates_after_register(ireg, immediates))
}

/// The instruction up to its immediates and jump targets.
pub open spec fn instruction_head_emissions(
    mode: SupportedOperationalMode,
    signature: MnemonicDefinitionSignature,
    address_size: AddressSize,
    p: PrefixRequirements,
    reg: Option<SizedMnemonicArgument>,
    rm: Option<SizedMnemonicArgument>,
    vvvv: Option<SizedMnemonicArgument>,
    ireg: Option<SizedMnemonicArgument>,
    immediate_opcode_byte: Option<u8>,
    immediates: Seq<SizedMnemonicArgument>,
) -> Seq<Emission> {
    let opcode = signature.opcode_bytes@;
    prefix_emissions(mode, signature, p, opcode, reg, rm, vvvv) + opcode_emissions(
        signature,
        opcode_tail(signature, opcode),
        rm,
    ) + addressing_emissions(mode, signature, rm_after_opcode(signature, rm), reg, address_size)
        + optional_byte(immediate_opcode_byte) + register_in_immediate_emissions(ireg, immediates)
}

/// The relocations of an instruction that starts at `start`.
pub open spec fn instruction_relocations(
    mode: SupportedOperationalMode,
    signature: MnemonicDefinitionSignature,
    address_size: AddressSize,
    p: PrefixRequirements,
    reg: Option<SizedMnemonicArgument>,
    rm: Option<SizedMnemonicArgument>,
    vvvv: Option<SizedMnemonicArgument>,
    ireg: Option<SizedMnemonicArgument>,
    immediate_opcode_byte: Option<u8>,
    immediates: Seq<SizedMnemonicArgument>,
    start: nat,
) -> Seq<Relocation> {
    let opcode = signature.opcode_bytes@;
    let before_addressing = prefix_emissions(mode, signature, p, opcode, reg, rm, vvvv)
        + opcode_emissions(signature, opcode_tail(signature, opcode), rm);
    let before_immediates = instruction_head_emissions(
        mode,
        signature,
        address_size,
        p,
        reg,
        rm,
        vvvv,
        ireg,
        immediate_opcode_byte,
        immediates,
    );
    addressing_relocations(
        mode,
        rm_after_opcode(signature, rm),
        address_size,
        start + stream_width(before_addressing),
    ) + immediates_relocations(
        mode,
        immediates_after_register(ireg, immediates),
        start + stream_width(before_immediates),
    )
}

impl StatementsBuffer {
    /// Emits the opcode bytes; under `SHORT_ARG` the r/m register is added to
    /// the last one and taken out of `rm`.
    pub(crate) fn push_r_m_last_opcode_byte(
        &mut self,
        signature: &MnemonicDefinitionSignature,
        remaining_signature_opcode_bytes: &[u8],
        rm: &mut Option<SizedMnemonicArgument>,
    )
        requires
            old(self).wf(),
            old(self).stream_len() + remaining_signature_opcode_bytes@.len() <= usize::MAX,
            short_arg_consistent(*signature, remaining_signature_opcode_bytes@, *old(rm)),
        ensures
            final(self).wf(),
            final(self).stream_len() == old(self).stream_len()
                + remaining_signature_opcode_bytes@.len(),
            final(self)@ == old(self)@ + opcode_emissions(
                *signature,
                remaining_signature_opcode_bytes@,
                *old(rm),
            ),
            *final(rm) == rm_after_opcode(*signature, *old(rm)),
    {
        let ghost opcode = remaining_signature_opcode_bytes@;
        if signature.flags.short_arg {
            let n = remaining_signature_opcode_bytes.len();
            let last_opcode_byte = remaining_signature_opcode_bytes[n - 1];
            let head = vstd::slice::slice_subrange(remaining_signature_opcode_bytes, 0, n - 1);
            self.push_bytes(head);
            match rm.take() {
                Some(SizedMnemonicArgument::DirectRegisterReference { register, .. }) => {
                    let rescaled_for_r8_to_r15 = register.identifier().code_and_7();
                    self.push_byte(last_opcode_byte + rescaled_for_r8_to_r15);
                },
                _ => {},
            }
            proof {
                assert(head@ =~= opcode.drop_last());
                assert(self@ =~= old(self)@ + opcode_emissions(*signature, opcode, *old(rm)));
            }
        } else {
            self.push_bytes(remaining_signature_opcode_bytes);
        }
    }

    /// Encodes one instruction: prefixes, opcode, ModR/M, SIB and
    /// displacement of the r/m operand, a trailing opcode byte, a register
    /// carried in an immediate, then the immediates and jump targets. Returns
    /// the instruction's relocations.
    pub fn encode_instruction(
        &mut self,
        mode: SupportedOperationalMode,
        signature: &MnemonicDefinitionSignature,
        address_size: AddressSize,
        p: PrefixRequirements,
        reg: Option<SizedMnemonicArgument>,
        rm: Option<SizedMnemonicArgument>,
        vvvv: Option<SizedMnemonicArgument>,
        ireg: Option<SizedMnemonicArgument>,
        immediate_opcode_byte: Option<u8>,
        immediates: Vec<SizedMnemonicArgument>,
    ) -> (r: Result<Relocations, InstructionEncodingError>)
        requires
            old(self).wf(),
            old(self).stream_len() + signature.opcode_bytes@.len() + 8 * immediates@.len() + 16
                <= usize::MAX,
        ensures
            final(self).wf(),
            r is Ok <==> operands_consistent(*signature, address_size, rm, ireg, immediates@)
                && !prefix_fails(mode, *signature, p) && !immediates_fail(
                mode,
                immediates_after_register(ireg, immediates@),
            ),
            !operands_consistent(*signature, address_size, rm, ireg, immediates@) ==> r
                == Err::<Relocations, _>(
                consistency_error(*signature, address_size, rm, ireg, immediates@)->Some_0,
            ) && final(self)@ == old(self)@,
            operands_consistent(*signature, address_size, rm, ireg, immediates@) && prefix_fails(
                mode,
                *signature,
                p,
            ) ==> r == Err::<Relocations, _>(InstructionEncodingError::RexPrefixInProtectedMode)
                && final(self)@ == old(self)@ + legacy_prefix_emissions(p),
            operands_consistent(*signature, address_size, rm, ireg, immediates@) && !prefix_fails(
                mode,
                *signature,
                p,
            ) && immediates_fail(mode, immediates_after_register(ireg, immediates@)) ==> r
                == Err::<Relocations, _>(InstructionEncodingError::ExternJumpTargetNotRegistrable)
                && exists|k: int|
                #![trigger first_failure(mode, immediates_after_register(ireg, immediates@), k)]
                first_failure(mode, immediates_after_register(ireg, immediates@), k)
                    && final(self)@ == old(self)@ + instruction_head_emissions(
                    mode,
                    *signature,
                    address_size,
                    p,
                    reg,
                    rm,
                    vvvv,
                    ireg,
                    immediate_opcode_byte,
                    immediates@,
                ) + immediates_emissions(
                    immediates_after_register(ireg, immediates@).take(k + 1),
                ),
            r is Ok ==> final(self)@ == old(self)@ + instruction_emissions(
                mode,
                *signature,
                address_size,
                p,
                reg,
                rm,
                vvvv,
                ireg,
                immediate_opcode_byte,
                immediates@,
            ) && r->Ok_0.mode == mode && r->Ok_0.entries@ == instruction_relocations(
                mode,
                *signature,
                address_size,
                p,
                reg,
                rm,
                vvvv,
                ireg,
                immediate_opcode_byte,
                immediates@,
                old(self).stream_len(),
            ),
            r is Ok ==> forall|i: int|
                0 <= i < r->Ok_0.entries@.len() ==> #[trigger] r->Ok_0.entries@[i].offset
                    + size_in_bytes(r->Ok_0.entries@[i].size) <= final(self).stream_len(),
    {
        match operands_error(signature, address_size, &rm, &ireg, &immediates) {
            Some(e) => {
                return Err(e);
            },
            None => {},
        }
        self.encode_consistent_instruction(
            mode,
            signature,
            address_size,
            p,
            reg,
            rm,
            vvvv,
            ireg,
            immediate_opcode_byte,
            immediates,
        )
    }

    /// Encodes one instruction whose operands fit its signature.
    #[verifier::spinoff_prover]
    #[verifier::rlimit(100)]
    fn encode_consistent_instruction(
        &mut self,
        mode: SupportedOperationalMode,
        signature: &MnemonicDefinitionSignature,
        address_size: AddressSize,
        p: PrefixRequirements,
        reg: Option<SizedMnemonicArgument>,
        rm: Option<SizedMnemonicArgument>,
        vvvv: Option<SizedMnemonicArgument>,
        ireg: Option<SizedMnemonicArgument>,
        immediate_opcode_byte: Option<u8>,
        immediates: Vec<SizedMnemonicArgument>,
    ) -> (r: Result<Relocations, InstructionEncodingError>)
        requires
            old(self).wf(),
            old(self).stream_len() + signature.opcode_bytes@.len() + 8 * immediates@.len() + 16
                <= usize::MAX,
            operands_consistent(*signature, address_size, rm, ireg, immediates@),
        ensures
            final(self).wf(),
            r is Ok <==> operands_consistent(*signature, address_size, rm, ireg, immediates@)
                && !prefix_fails(mode, *signature, p) && !immediates_fail(
                mode,
                immediates_after_register(ireg, immediates@),
            ),
            operands_consistent(*signature, address_size, rm, ireg, immediates@) && prefix_fails(
                mode,
                *signature,
                p,
            ) ==> r == Err::<Relocations, _>(InstructionEncodingError::RexPrefixInProtectedMode)
                && final(self)@ == old(self)@ + legacy_prefix_emissions(p),
            operands_consistent(*signature, address_size, rm, ireg, immediates@) && !prefix_fails(
                mode,
                *signature,
                p,
            ) && immediates_fail(mode, immediates_after_register(ireg, immediates@)) ==> r
                == Err::<Relocations, _>(InstructionEncodingError::ExternJumpTargetNotRegistrable)
                && exists|k: int|
                #![trigger first_failure(mode, immediates_after_register(ireg, immediates@), k)]
                first_failure(mode, immediates_after_register(ireg, immediates@), k)
                    && final(self)@ == old(self)@ + instruction_head_emissions(
                    mode,
                    *signature,
                    address_size,
                    p,
                    reg,
                    rm,
                    vvvv,
                    ireg,
                    immediate_opcode_byte,
                    immediates@,
                ) + immediates_emissions(
                    immediates_after_register(ireg, immediates@).take(k + 1),
                ),
            r is Ok ==> final(self)@ == old(self)@ + instruction_emissions(
                mode,
                *signature,
                address_size,
                p,
                reg,
                rm,
                vvvv,
                ireg,
                immediate_opcode_byte,
                immediates@,
            ) && r->Ok_0.mode == mode && r->Ok_0.entries@ == instruction_relocations(
                mode,
                *signature,
                address_size,
                p,
                reg,
                rm,
                vvvv,
                ireg,
                immediate_opcode_byte,
                immediates@,
                old(self).stream_len(),
            ),
            r is Ok ==> forall|i: int|
                0 <= i < r->Ok_0.entries@.len() ==> #[trigger] r->Ok_0.entries@[i].offset
                    + size_in_bytes(r->Ok_0.entries@[i].size) <= final(self).stream_len(),
    {
        let ghost start = self.stream_len();
        let ghost rm_spec = rm;
        let ghost immediates_spec = immediates@;
        let ghost v0 = self@;
        let mut rm = rm;
        let mut immediates = immediates;
        let tail = match self.push_vex_and_xop_prefixes_or_operand_size_modification_and_rex_prefixes(
            mode,
            signature,
            signature.opcode_bytes.as_slice(),
            p,
            &reg,
            &rm,
            &vvvv,
        ) {
            Ok(tail) => tail,
            Err(e) => {
                return Err(e);
            },
        };
        self.push_r_m_last_opcode_byte(signature, tail, &mut rm);
        let ghost v2 = self@;
        let ghost len2 = self.stream_len();
        let mut relocations = self.push_addressing(mode, signature, rm, &reg, address_size);
        self.push_immediate_opcode_byte_after_addressing_displacement(immediate_opcode_byte);
        self.push_register_in_immediate(ireg, &mut immediates);
        let ghost v5 = self@;
        let ghost before_immediates = instruction_head_emissions(
            mode,
            *signature,
            address_size,
            p,
            reg,
            rm_spec,
            vvvv,
            ireg,
            immediate_opcode_byte,
            immediates_spec,
        );
        proof {
            assert(v5 =~= v0 + before_immediates);
        }
        match self.push_immediates(immediates, &mut relocations) {
            Ok(()) => {},
            Err(e) => {
                proof {
                    let after = immediates_after_register(ireg, immediates_spec);
                    let k = choose|k: int| #[trigger]
                        first_failure(mode, after, k) && self@ == v5 + immediates_emissions(
                            after.take(k + 1),
                        );
                    assert(self@ =~= old(self)@ + before_immediates + immediates_emissions(
                        after.take(k + 1),
                    ));
                }
                return Err(e);
            },
        }
        proof {
            let opcode = signature.opcode_bytes@;
            let pre = prefix_emissions(mode, *signature, p, opcode, reg, rm_spec, vvvv);
            let opc = opcode_emissions(*signature, opcode_tail(*signature, opcode), rm_spec);
            crate::statements::lemma_width_concat(v0, pre);
            crate::statements::lemma_width_concat(v0, pre + opc);
            assert(v2 =~= v0 + (pre + opc));
            assert(len2 == start + stream_width(pre + opc));
            let before_immediates = (pre + opc) + addressing_emissions(
                mode,
                *signature,
                rm_after_opcode(*signature, rm_spec),
                reg,
                address_size,
            ) + optional_byte(immediate_opcode_byte) + register_in_immediate_emissions(
                ireg,
                immediates_spec,
            );
            assert(v5 =~= v0 + before_immediates);
            crate::statements::lemma_width_concat(v0, before_immediates);
            assert(self@ =~= old(self)@ + instruction_emissions(
                mode,
                *signature,
                address_size,
                p,
                reg,
                rm_spec,
                vvvv,
                ireg,
                immediate_opcode_byte,
                immediates_spec,
            ));
            assert(relocations.entries@ =~= instruction_relocations(
                mode,
                *signature,
                address_size,
                p,
                reg,
                rm_spec,
                vvvv,
                ireg,
                immediate_opcode_byte,
                immediates_spec,
                start,
            ));
        }
        Ok(relocations)
    }
}

/// Whether the signature and the operands fit together.
pub fn operands_are_consistent(
    signature: &MnemonicDefinitionSignature,
    address_size: AddressSize,
    rm: &Option<SizedMnemonicArgument>,
    ireg: &Option<SizedMnemonicArgument>,
    immediates: &Vec<SizedMnemonicArgument>,
) -> (r: bool)
    ensures
        r == operands_consistent(*signature, address_size, *rm, *ireg, immediates@),
{
    operands_error(signature, address_size, rm, ireg, immediates).is_none()
}

/// The first table invariant that the signature and the operands break, if any.
pub fn operands_error(
    signature: &MnemonicDefinitionSignature,
    address_size: AddressSize,
    rm: &Option<SizedMnemonicArgument>,
    ireg: &Option<SizedMnemonicArgument>,
    immediates: &Vec<SizedMnemonicArgument>,
) -> (r: Option<InstructionEncodingError>)
    ensures
        r == consistency_error(*signature, address_size, *rm, *ireg, immediates@),
        r is None <==> operands_consistent(*signature, address_size, *rm, *ireg, immediates@),
{
    let flags = signature.flags;
    if flags.vex_op && flags.xop_op {
        return Some(InstructionEncodingError::VexAndXopTogether);
    }
    match signature.reg_extension {
        Some(digit) => if digit >= 8 {
            return Some(InstructionEncodingError::OpcodeExtensionOutOfRange);
        },
        None => {},
    }
    let vex_or_xop = flags.vex_op || flags.xop_op;
    let n = signature.opcode_bytes.len();
    if vex_or_xop && n == 0 {
        return Some(InstructionEncodingError::MissingMapSelector);
    }
    if flags.short_arg {
        let tail_len = if vex_or_xop { n - 1 } else { n };
        if tail_len == 0 {
            return Some(InstructionEncodingError::ShortArgumentWithoutOpcode);
        }
        proof {
            let tail = opcode_tail(*signature, signature.opcode_bytes@);
            assert(tail.len() == tail_len);
            assert(tail.last() == signature.opcode_bytes@[n - 1]);
        }
        let last = signature.opcode_bytes[n - 1];
        match rm {
            Some(SizedMnemonicArgument::DirectRegisterReference { register, .. }) => {
                if (last as u16) + (register.identifier().code_and_7() as u16) > 0xFF {
                    return Some(InstructionEncodingError::ShortArgumentOpcodeOverflow);
                }
            },
            _ => {
                return Some(InstructionEncodingError::ShortArgumentWithoutRegister);
            },
        }
    } else {
        match rm {
            Some(SizedMnemonicArgument::IndirectMemoryReference { base, index, .. }) => {
                if !ParsedIndirectMemoryReferenceIndex::addressing_mode_is_vector_scaled_index_byte(index)
                    && address_size.is_16_bit_addressing() && base.is_none() {
                    return Some(InstructionEncodingError::SixteenBitAddressingWithoutBase);
                }
                match index {
                    Some(i) => if !(i.scale == 1 || i.scale == 2 || i.scale == 4 || i.scale == 8) {
                        return Some(InstructionEncodingError::InvalidScale);
                    },
                    None => {},
                }
            },
            _ => {},
        }
    }
    let mut first: usize = 0;
    match ireg {
        Some(SizedMnemonicArgument::DirectRegisterReference { register, .. }) => {
            if register.code >= 16 {
                return Some(InstructionEncodingError::RegisterInImmediateOutOfRange);
            }
            if immediates.len() > 0 {
                match &immediates[0] {
                    SizedMnemonicArgument::Immediate { size: Size::BYTE, .. } => {
                        first = 1;
                    },
                    _ => {},
                }
            }
        },
        _ => {},
    }
    let ghost rest = immediates_after_register(*ireg, immediates@);
    proof {
        assert(rest =~= immediates@.skip(first as int));
        assert(leading_operands_consistent(*signature, address_size, *rm, *ireg, immediates@));
    }
    let mut i: usize = first;
    while i < immediates.len()
        invariant
            first <= i <= immediates@.len(),
            rest =~= immediates@.skip(first as int),
            rest == immediates_after_register(*ireg, immediates@),
            leading_operands_consistent(*signature, address_size, *rm, *ireg, immediates@),
            forall|j: int| first <= j < i ==> is_immediate_like(#[trigger] immediates@[j]),
        decreases immediates@.len() - i,
    {
        match &immediates[i] {
            SizedMnemonicArgument::Immediate { .. } => {},
            SizedMnemonicArgument::JumpTarget { .. } => {},
            _ => {
                proof {
                    assert(rest[i - first] == immediates@[i as int]);
                }
                return Some(InstructionEncodingError::NotAnImmediate);
            },
        }
        i = i + 1;
    }
    proof {
        assert forall|j: int| 0 <= j < rest.len() implies is_immediate_like(#[trigger] rest[j]) by {
            assert(rest[j] == immediates@[j + first]);
        }
    }
    None
}

} // verus!
