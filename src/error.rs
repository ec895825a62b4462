use vstd::prelude::*;

verus! {

/// Why an instruction could not be encoded.
#[derive(Debug, Clone, Copy, PartialEq, Eq, Structural)]
pub enum InstructionEncodingError {
    /// A legacy-encoded operation needs a REX prefix, which 32-bit mode lacks.
    RexPrefixInProtectedMode,
    /// A bare jump target of other than 32 bits cannot be registered in
    /// 64-bit mode.
    ExternJumpTargetNotRegistrable,
    // The signature and the operands do not fit together: faults in the
    // mnemonic tables, not in the source being assembled.
    /// A signature is marked both VEX and XOP.
    VexAndXopTogether,
    /// An opcode extension does not fit the ModR/M reg field.
    OpcodeExtensionOutOfRange,
    /// A VEX or XOP signature has no map selector byte.
    MissingMapSelector,
    /// A `SHORT_ARG` signature has no opcode byte to carry the register.
    ShortArgumentWithoutOpcode,
    /// A `SHORT_ARG` signature got an r/m operand that is not a register.
    ShortArgumentWithoutRegister,
    /// The register added to a `SHORT_ARG` opcode byte overflows it.
    ShortArgumentOpcodeOverflow,
    /// 16-bit addressing without a base register.
    SixteenBitAddressingWithoutBase,
    /// An index scale other than 1, 2, 4 or 8.
    InvalidScale,
    /// A register carried in an immediate does not fit its high nibble.
    RegisterInImmediateOutOfRange,
    /// An argument left for the immediates is neither an immediate nor a jump target.
    NotAnImmediate,
}

/// The description of each error.
pub open spec fn error_reason(e: InstructionEncodingError) -> &'static str {
    match e {
        InstructionEncodingError::RexPrefixInProtectedMode =>
            "Some SSE and AVX legacy encoded operations are not possible in 32-bit mode as they require a REX.W prefix to be encoded, which is impossible",
        InstructionEncodingError::ExternJumpTargetNotRegistrable =>
            "In 64-bit mode a bare jump target can only be registered as a 32-bit relative relocation",
        InstructionEncodingError::VexAndXopTogether =>
            "invalid mnemonic signature: VEX_OP and XOP_OP are both set",
        InstructionEncodingError::OpcodeExtensionOutOfRange =>
            "invalid mnemonic signature: the opcode extension does not fit the ModR/M reg field",
        InstructionEncodingError::MissingMapSelector =>
            "invalid mnemonic signature: VEX_OP and XOP_OP need a map_sel byte",
        InstructionEncodingError::ShortArgumentWithoutOpcode =>
            "invalid mnemonic signature: SHORT_ARG needs an opcode byte to carry the register",
        InstructionEncodingError::ShortArgumentWithoutRegister =>
            "invalid mnemonic signature: SHORT_ARG needs a direct register as r/m operand",
        InstructionEncodingError::ShortArgumentOpcodeOverflow =>
            "invalid mnemonic signature: SHORT_ARG register overflows the opcode byte",
        InstructionEncodingError::SixteenBitAddressingWithoutBase =>
            "invalid mnemonic signature: 16-bit addressing needs a base register",
        InstructionEncodingError::InvalidScale =>
            "invalid mnemonic signature: an index scale must be 1, 2, 4 or 8",
        InstructionEncodingError::RegisterInImmediateOutOfRange =>
            "invalid mnemonic signature: a register in an immediate must be below 16",
        InstructionEncodingError::NotAnImmediate =>
            "invalid mnemonic signature: expected an immediate or a jump target",
    }
}

impl InstructionEncodingError {
    /// A short description of the error.
    pub fn reason(self) -> (r: &'static str)
        ensures
            r@ == error_reason(self)@,
    {
        match self {
            InstructionEncodingError::RexPrefixInProtectedMode =>
                "Some SSE and AVX legacy encoded operations are not possible in 32-bit mode as they require a REX.W prefix to be encoded, which is impossible",
            InstructionEncodingError::ExternJumpTargetNotRegistrable =>
                "In 64-bit mode a bare jump target can only be registered as a 32-bit relative relocation",
            InstructionEncodingError::VexAndXopTogether =>
                "invalid mnemonic signature: VEX_OP and XOP_OP are both set",
            InstructionEncodingError::OpcodeExtensionOutOfRange =>
                "invalid mnemonic signature: the opcode extension does not fit the ModR/M reg field",
            InstructionEncodingError::MissingMapSelector =>
                "invalid mnemonic signature: VEX_OP and XOP_OP need a map_sel byte",
            InstructionEncodingError::ShortArgumentWithoutOpcode =>
                "invalid mnemonic signature: SHORT_ARG needs an opcode byte to carry the register",
            InstructionEncodingError::ShortArgumentWithoutRegister =>
                "invalid mnemonic signature: SHORT_ARG needs a direct register as r/m operand",
            InstructionEncodingError::ShortArgumentOpcodeOverflow =>
                "invalid mnemonic signature: SHORT_ARG register overflows the opcode byte",
            InstructionEncodingError::SixteenBitAddressingWithoutBase =>
                "invalid mnemonic signature: 16-bit addressing needs a base register",
            InstructionEncodingError::InvalidScale =>
                "invalid mnemonic signature: an index scale must be 1, 2, 4 or 8",
            InstructionEncodingError::RegisterInImmediateOutOfRange =>
                "invalid mnemonic signature: a register in an immediate must be below 16",
            InstructionEncodingError::NotAnImmediate =>
                "invalid mnemonic signature: expected an immediate or a jump target",
        }
    }
}

} // verus!
