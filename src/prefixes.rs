use vstd::prelude::*;
use crate::error::InstructionEncodingError;
use crate::operands::{
    base_and_index_identifiers, base_extension_code, direct_register_code,
    direct_register_identifier, index_extension_code, InstructionFlags,
    MnemonicDefinitionSignature, SizedMnemonicArgument, SupportedOperationalMode,
};
use crate::registers::{extension_bit, inverted_extension_bit};
use crate::laws::{lemma_prefix_width, prefix_length};
use crate::statements::{lemma_width_concat, optional_byte, Emission, StatementsBuffer};

verus! {

/// The prefixes an instruction needs, as decided from its operands.
#[derive(Debug, Clone, Copy, PartialEq, Eq, Structural)]
pub struct PrefixRequirements {
    /// The operand-size override `0x66`.
    pub size_prefix_is_needed: bool,
    /// A mandatory legacy prefix such as `0xF2` or `0xF3`.
    pub legacy_prefix_modification: Option<u8>,
    pub rex_prefix_is_needed: bool,
    pub rex_w_prefix_is_needed: bool,
    pub vex_l_prefix_is_needed: bool,
}

pub const OPERAND_SIZE_OVERRIDE_PREFIX: u8 = 0x66;

pub const BASE_REX_PREFIX: u8 = 0x40;

pub const VEX_TWO_BYTE_LEAD: u8 = 0xC5;

pub const VEX_THREE_BYTE_LEAD: u8 = 0xC4;

pub const XOP_LEAD: u8 = 0x8F;

pub open spec fn bit(b: bool) -> u8 {
    if b {
        1
    } else {
        0
    }
}

pub open spec fn uses_vex_or_xop(signature: MnemonicDefinitionSignature) -> bool {
    signature.flags.vex_op || signature.flags.xop_op
}

/// The `pp` field: the legacy prefix that a VEX or XOP prefix stands for.
pub open spec fn pp_field(p: PrefixRequirements) -> u8 {
    if p.size_prefix_is_needed {
        1
    } else if p.legacy_prefix_modification == Some(0xF3u8) {
        1
    } else if p.legacy_prefix_modification == Some(0xF2u8) {
        3
    } else {
        0
    }
}

/// VEX / XOP byte 1: inverted R, X, B and the opcode map. 32-bit mode has no
/// extended registers, so the three bits stay set.
pub open spec fn vex_byte1(
    mode: SupportedOperationalMode,
    map_sel: u8,
    reg_code: u8,
    index_code: u8,
    base_code: u8,
) -> u8 {
    match mode {
        SupportedOperationalMode::Long => ((map_sel & 0x1F) | (inverted_extension_bit(reg_code) << 4u8)
            | (inverted_extension_bit(index_code) << 3u8) | (inverted_extension_bit(base_code)
            << 2u8)) as u8,
        SupportedOperationalMode::Protected => ((map_sel & 0x1F) | 0xE0) as u8,
    }
}

/// VEX / XOP byte 2: W, inverted vvvv, L and pp.
pub open spec fn vex_byte2(pp: u8, w: bool, vvvv_code: u8, l: bool) -> u8 {
    ((pp & 3) | (bit(w) << 7u8) | ((!vvvv_code & 0xF) << 3u8) | (bit(l) << 2u8)) as u8
}

/// The two-byte VEX form can stand in for the three-byte one: map `0F`, no
/// X or B extension, W clear.
pub open spec fn two_byte_vex_applies(signature: MnemonicDefinitionSignature, byte1: u8, byte2: u8) -> bool {
    signature.flags.vex_op && (byte1 & 0x7F) == 0x61 && (byte2 & 0x80) == 0
}

/// Whether the operands allow the short two-byte VEX prefix.
pub open spec fn uses_two_byte_vex(
    mode: SupportedOperationalMode,
    signature: MnemonicDefinitionSignature,
    reg: Option<SizedMnemonicArgument>,
    rm: Option<SizedMnemonicArgument>,
    map_sel: u8,
    p: PrefixRequirements,
    vvvv: Option<SizedMnemonicArgument>,
) -> bool {
    two_byte_vex_applies(
        signature,
        vex_byte1(
            mode,
            map_sel,
            direct_register_code(reg),
            index_extension_code(rm),
            base_extension_code(rm),
        ),
        vex_byte2(
            pp_field(p),
            p.rex_w_prefix_is_needed,
            direct_register_code(vvvv),
            p.vex_l_prefix_is_needed,
        ),
    )
}

pub open spec fn vex_xop_emissions(
    mode: SupportedOperationalMode,
    signature: MnemonicDefinitionSignature,
    reg: Option<SizedMnemonicArgument>,
    rm: Option<SizedMnemonicArgument>,
    map_sel: u8,
    p: PrefixRequirements,
    vvvv: Option<SizedMnemonicArgument>,
) -> Seq<Emission> {
    let byte1 = vex_byte1(
        mode,
        map_sel,
        direct_register_code(reg),
        index_extension_code(rm),
        base_extension_code(rm),
    );
    let byte2 = vex_byte2(
        pp_field(p),
        p.rex_w_prefix_is_needed,
        direct_register_code(vvvv),
        p.vex_l_prefix_is_needed,
    );
    if uses_two_byte_vex(mode, signature, reg, rm, map_sel, p, vvvv) {
        seq![Emission::Byte(VEX_TWO_BYTE_LEAD), Emission::Byte(((byte1 & 0x80) | (byte2 & 0x7F)) as u8)]
    } else {
        seq![
            Emission::Byte(if signature.flags.vex_op { VEX_THREE_BYTE_LEAD } else { XOP_LEAD }),
            Emission::Byte(byte1),
            Emission::Byte(byte2),
        ]
    }
}

/// The REX byte: `0100WRXB`.
pub open spec fn rex_byte(w: bool, reg_code: u8, index_code: u8, base_code: u8) -> u8 {
    (BASE_REX_PREFIX | (bit(w) << 3u8) | (extension_bit(reg_code) >> 1u8) | (extension_bit(
        index_code,
    ) >> 2u8) | (extension_bit(base_code) >> 3u8)) as u8
}

/// A legacy encoding needs REX in 32-bit mode, which has none.
pub open spec fn prefix_fails(
    mode: SupportedOperationalMode,
    signature: MnemonicDefinitionSignature,
    p: PrefixRequirements,
) -> bool {
    !uses_vex_or_xop(signature) && p.rex_prefix_is_needed && mode
        == SupportedOperationalMode::Protected
}

/// The legacy prefixes emitted before the REX check.
pub open spec fn legacy_prefix_emissions(p: PrefixRequirements) -> Seq<Emission> {
    optional_byte(p.legacy_prefix_modification) + optional_byte(
        if p.size_prefix_is_needed { Some(OPERAND_SIZE_OVERRIDE_PREFIX) } else { None },
    )
}

/// All prefixes of an instruction that encodes.
#[verifier::opaque]
pub open spec fn prefix_emissions(
    mode: SupportedOperationalMode,
    signature: MnemonicDefinitionSignature,
    p: PrefixRequirements,
    opcode: Seq<u8>,
    reg: Option<SizedMnemonicArgument>,
    rm: Option<SizedMnemonicArgument>,
    vvvv: Option<SizedMnemonicArgument>,
) -> Seq<Emission> {
    if uses_vex_or_xop(signature) {
        vex_xop_emissions(mode, signature, reg, rm, opcode[0], p, vvvv)
    } else if p.rex_prefix_is_needed {
        legacy_prefix_emissions(p) + seq![
            Emission::Byte(
                rex_byte(
                    p.rex_w_prefix_is_needed,
                    direct_register_code(reg),
                    index_extension_code(rm),
                    base_extension_code(rm),
                ),
            ),
        ]
    } else {
        legacy_prefix_emissions(p)
    }
}

/// The opcode bytes left after the prefixes: a VEX or XOP prefix takes the
/// first as its map selector.
pub open spec fn opcode_tail(signature: MnemonicDefinitionSignature, opcode: Seq<u8>) -> Seq<u8> {
    if uses_vex_or_xop(signature) {
        opcode.skip(1)
    } else {
        opcode
    }
}

impl StatementsBuffer {
    /// Emits the prefixes and returns the opcode bytes still to emit. VEX and
    /// XOP prefixes carry the operand-size and legacy prefixes within them.
    pub(crate) fn push_vex_and_xop_prefixes_or_operand_size_modification_and_rex_prefixes<'a>(
        &mut self,
        mode: SupportedOperationalMode,
        signature: &MnemonicDefinitionSignature,
        remaining_signature_opcode_bytes: &'a [u8],
        p: PrefixRequirements,
        reg: &Option<SizedMnemonicArgument>,
        rm: &Option<SizedMnemonicArgument>,
        vvvv: &Option<SizedMnemonicArgument>,
    ) -> (r: Result<&'a [u8], InstructionEncodingError>)
        requires
            old(self).wf(),
            old(self).stream_len() + 3 <= usize::MAX,
            uses_vex_or_xop(*signature) ==> remaining_signature_opcode_bytes@.len() >= 1,
        ensures
            final(self).wf(),
            final(self).stream_len() <= old(self).stream_len() + 3,
            r is Err <==> prefix_fails(mode, *signature, p),
            r is Err ==> r->Err_0 == InstructionEncodingError::RexPrefixInProtectedMode
                && final(self)@ == old(self)@ + legacy_prefix_emissions(p),
            r is Ok ==> final(self)@ == old(self)@ + prefix_emissions(
                mode,
                *signature,
                p,
                remaining_signature_opcode_bytes@,
                *reg,
                *rm,
                *vvvv,
            ) && r->Ok_0@ == opcode_tail(*signature, remaining_signature_opcode_bytes@),
            r is Ok ==> final(self).stream_len() == old(self).stream_len() + prefix_length(
                mode,
                *signature,
                p,
                remaining_signature_opcode_bytes@,
                *reg,
                *rm,
                *vvvv,
            ),
    {
        proof {
            reveal(prefix_emissions);
        }
        let vex_or_xop = InstructionFlags::vex_operation_or_xop_operation();
        if signature.intersects_flags(vex_or_xop) {
            let prefix: u8 = if p.size_prefix_is_needed {
                1
            } else {
                match p.legacy_prefix_modification {
                    Some(0xF3) => 1,
                    Some(0xF2) => 3,
                    _ => 0,
                }
            };
            let map_sel_opcode_base_byte = remaining_signature_opcode_bytes[0];
            let tail = vstd::slice::slice_subrange(
                remaining_signature_opcode_bytes,
                1,
                remaining_signature_opcode_bytes.len(),
            );
            self.push_vex_xop(mode, signature, reg, rm, map_sel_opcode_base_byte, p, prefix, vvvv);
            proof {
                lemma_width_concat(old(self)@, prefix_emissions(
                    mode,
                    *signature,
                    p,
                    remaining_signature_opcode_bytes@,
                    *reg,
                    *rm,
                    *vvvv,
                ));
                lemma_prefix_width(mode, *signature, p, remaining_signature_opcode_bytes@, *reg, *rm, *vvvv);
            }
            Ok(tail)
        } else {
            self.push_byte_if_some(p.legacy_prefix_modification);
            self.push_byte_if(p.size_prefix_is_needed, OPERAND_SIZE_OVERRIDE_PREFIX);
            if p.rex_prefix_is_needed {
                if mode.is_for_protected_mode() {
                    return Err(InstructionEncodingError::RexPrefixInProtectedMode);
                }
                self.push_rex_prefix_opcode_byte(p.rex_w_prefix_is_needed, reg, rm);
            }
            proof {
                assert(self@ =~= old(self)@ + prefix_emissions(
                    mode,
                    *signature,
                    p,
                    remaining_signature_opcode_bytes@,
                    *reg,
                    *rm,
                    *vvvv,
                ));
            }
            proof {
                lemma_width_concat(old(self)@, prefix_emissions(
                    mode,
                    *signature,
                    p,
                    remaining_signature_opcode_bytes@,
                    *reg,
                    *rm,
                    *vvvv,
                ));
                lemma_prefix_width(mode, *signature, p, remaining_signature_opcode_bytes@, *reg, *rm, *vvvv);
            }
            Ok(remaining_signature_opcode_bytes)
        }
    }

    fn push_vex_xop(
        &mut self,
        mode: SupportedOperationalMode,
        signature: &MnemonicDefinitionSignature,
        reg: &Option<SizedMnemonicArgument>,
        rm: &Option<SizedMnemonicArgument>,
        map_sel_opcode_base_byte: u8,
        p: PrefixRequirements,
        prefix: u8,
        vvvv: &Option<SizedMnemonicArgument>,
    )
        requires
            old(self).wf(),
            old(self).stream_len() + 3 <= usize::MAX,
            prefix == pp_field(p),
        ensures
            final(self).wf(),
            final(self).stream_len() <= old(self).stream_len() + 3,
            final(self)@ == old(self)@ + vex_xop_emissions(
                mode,
                *signature,
                *reg,
                *rm,
                map_sel_opcode_base_byte,
                p,
                *vvvv,
            ),
    {
        let byte1: u8 = match mode {
            SupportedOperationalMode::Long => {
                let reg_k = direct_register_identifier(reg);
                let (base_k, index_k) = base_and_index_identifiers(rm);
                (map_sel_opcode_base_byte & 0x1F) | (reg_k.code_and_8_then_invert() << 4u8) | (
                index_k.code_and_8_then_invert() << 3u8) | (base_k.code_and_8_then_invert() << 2u8)
            },
            SupportedOperationalMode::Protected => (map_sel_opcode_base_byte & 0x1F) | 0xE0,
        };
        let vvvv_k = direct_register_identifier(vvvv);
        let w: u8 = if p.rex_w_prefix_is_needed { 1 } else { 0 };
        let l: u8 = if p.vex_l_prefix_is_needed { 1 } else { 0 };
        let byte2: u8 = (prefix & 3) | (w << 7u8) | ((!vvvv_k.code() & 0xF) << 3u8) | (l << 2u8);
        let is_vex = signature.flags.vex_op;
        if is_vex && (byte1 & 0x7F) == 0x61 && (byte2 & 0x80) == 0 {
            self.push_byte(VEX_TWO_BYTE_LEAD);
            self.push_byte((byte1 & 0x80) | (byte2 & 0x7F));
        } else {
            self.push_byte(if is_vex { VEX_THREE_BYTE_LEAD } else { XOP_LEAD });
            self.push_byte(byte1);
            self.push_byte(byte2);
        }
        proof {
            assert(self@ =~= old(self)@ + vex_xop_emissions(
                mode,
                *signature,
                *reg,
                *rm,
                map_sel_opcode_base_byte,
                p,
                *vvvv,
            ));
        }
    }

    fn push_rex_prefix_opcode_byte(
        &mut self,
        rex_w_prefix_is_needed: bool,
        reg: &Option<SizedMnemonicArgument>,
        rm: &Option<SizedMnemonicArgument>,
    )
        requires
            old(self).wf(),
            old(self).stream_len() + 1 <= usize::MAX,
        ensures
            final(self).wf(),
            final(self).stream_len() == old(self).stream_len() + 1,
            final(self)@ == old(self)@.push(
                Emission::Byte(
                    rex_byte(
                        rex_w_prefix_is_needed,
                        direct_register_code(*reg),
                        index_extension_code(*rm),
                        base_extension_code(*rm),
                    ),
                ),
            ),
    {
        let reg_k = direct_register_identifier(reg);
        let (base_k, index_k) = base_and_index_identifiers(rm);
        let w: u8 = if rex_w_prefix_is_needed { 1 } else { 0 };
        let w_bit = w << 3u8;
        let r_bit = reg_k.code_and_8() >> 1u8;
        let x_bit = index_k.code_and_8() >> 2u8;
        let b_bit = base_k.code_and_8() >> 3u8;
        self.push_byte(BASE_REX_PREFIX | w_bit | r_bit | x_bit | b_bit)
    }
}

} // verus!
