use vstd::prelude::*;
use crate::registers::{Register, RegisterIdentifier, RAX_CODE};

verus! {

/// Whether code is assembled for 64-bit long mode or 32-bit protected mode.
#[derive(Debug, Clone, Copy, PartialEq, Eq, Structural)]
pub enum SupportedOperationalMode {
    Long,
    Protected,
}

impl SupportedOperationalMode {
    pub fn is_for_protected_mode(self) -> (r: bool)
        ensures
            r == (self == SupportedOperationalMode::Protected),
    {
        match self {
            SupportedOperationalMode::Protected => true,
            SupportedOperationalMode::Long => false,
        }
    }
}

/// Effective address width of a memory operand.
#[derive(Debug, Clone, Copy, PartialEq, Eq, Structural)]
pub enum AddressSize {
    Bits16,
    Bits32,
    Bits64,
}

impl AddressSize {
    pub fn is_16_bit_addressing(self) -> (r: bool)
        ensures
            r == (self == AddressSize::Bits16),
    {
        match self {
            AddressSize::Bits16 => true,
            _ => false,
        }
    }
}

/// Width of an operand, a displacement or an immediate.
#[derive(Debug, Clone, Copy, PartialEq, Eq, Structural)]
pub enum Size {
    BYTE,
    WORD,
    DWORD,
    QWORD,
}

/// Number of bytes a value of this size takes in the stream.
pub open spec fn size_in_bytes(size: Size) -> nat {
    match size {
        Size::BYTE => 1,
        Size::WORD => 2,
        Size::DWORD => 4,
        Size::QWORD => 8,
    }
}

impl Size {
    pub fn in_bytes(self) -> (r: usize)
        ensures
            r == size_in_bytes(self),
    {
        match self {
            Size::BYTE => 1,
            Size::WORD => 2,
            Size::DWORD => 4,
            Size::QWORD => 8,
        }
    }
}

/// A value that is resolved after encoding: when the emitted code is
/// compiled or linked.
#[derive(Debug, PartialEq, Eq)]
pub enum Expression {
    /// A known integer.
    Constant(i64),
    /// Source text that evaluates to an integer.
    Fragment(String),
    /// `literal | (value & mask)`.
    MaskedOr { literal: u8, value: Box<Expression>, mask: u8 },
}

impl Expression {
    pub fn zero() -> (r: Self)
        ensures
            r == Expression::Constant(0),
    {
        Expression::Constant(0)
    }

    pub fn literal_byte(byte: u8) -> (r: Self)
        ensures
            r == Expression::Constant(byte as i64),
    {
        Expression::Constant(byte as i64)
    }

    /// This byte, with the bits of `value` under `mask` merged in.
    pub fn or_with_masked_value(literal: u8, value: Expression, mask: u8) -> (r: Self)
        ensures
            r == (Expression::MaskedOr { literal, value: Box::new(value), mask }),
    {
        Expression::MaskedOr { literal, value: Box::new(value), mask }
    }
}

/// The target of a jump or of a reference to code.
#[derive(Debug, PartialEq, Eq)]
pub enum JumpVariant {
    /// An address given by an expression.
    Bare(Expression),
    /// A global label.
    Global(String),
    /// The next local label of this name.
    Forward(String),
    /// The previous local label of this name.
    Backward(String),
    /// A dynamic label, numbered by an expression.
    Dynamic(Expression),
}

/// The index part of a memory operand: `register * scale`, where the scale may
/// be multiplied by an expression known only later.
#[derive(Debug, PartialEq, Eq)]
pub struct ParsedIndirectMemoryReferenceIndex {
    pub register: Register,
    pub scale: u8,
    pub expression: Option<Expression>,
}

/// The scale field of a SIB byte for a scale of 1, 2, 4 or 8.
pub open spec fn scale_field(scale: u8) -> u8 {
    if scale == 1 {
        0
    } else if scale == 2 {
        1
    } else if scale == 4 {
        2
    } else {
        3
    }
}

pub open spec fn valid_scale(scale: u8) -> bool {
    scale == 1 || scale == 2 || scale == 4 || scale == 8
}

impl ParsedIndirectMemoryReferenceIndex {
    pub fn encode_scale(scale: u8) -> (r: u8)
        ensures
            r == scale_field(scale),
            r < 4,
    {
        if scale == 1 {
            0
        } else if scale == 2 {
            1
        } else if scale == 4 {
            2
        } else {
            3
        }
    }

    /// The index register is a vector register: VSIB addressing.
    pub fn addressing_mode_is_vector_scaled_index_byte(index: &Option<Self>) -> (r: bool)
        ensures
            r == is_vsib_index(*index),
    {
        match index {
            Some(i) => i.register.is_vector(),
            None => false,
        }
    }
}

pub open spec fn is_vsib_index(index: Option<ParsedIndirectMemoryReferenceIndex>) -> bool {
    index is Some && index->Some_0.register.kind == crate::registers::RegisterKind::Vector
}

/// An operand whose size has been settled.
#[derive(Debug, PartialEq, Eq)]
pub enum SizedMnemonicArgument {
    DirectRegisterReference { register: Register, size: Size },
    IndirectMemoryReference {
        displacement_size: Option<Size>,
        base: Option<Register>,
        index: Option<ParsedIndirectMemoryReferenceIndex>,
        displacement: Option<Expression>,
    },
    IndirectJumpTarget { jump_variant: JumpVariant, size: Size },
    Immediate { value: Expression, size: Size },
    JumpTarget { jump_variant: JumpVariant, size: Size },
}

/// The register number of a direct register operand, else that of `RAX`.
pub open spec fn direct_register_code(a: Option<SizedMnemonicArgument>) -> u8 {
    match a {
        Some(SizedMnemonicArgument::DirectRegisterReference { register, .. }) => register.code,
        _ => RAX_CODE,
    }
}

/// The base register number that the REX.B / VEX.B bit extends: the register
/// of a direct operand, the base of a memory operand, else `RAX`.
pub open spec fn base_extension_code(rm: Option<SizedMnemonicArgument>) -> u8 {
    match rm {
        Some(SizedMnemonicArgument::DirectRegisterReference { register, .. }) => register.code,
        Some(SizedMnemonicArgument::IndirectMemoryReference { base, .. }) => match base {
            Some(b) => b.code,
            None => RAX_CODE,
        },
        _ => RAX_CODE,
    }
}

/// The index register number that the REX.X / VEX.X bit extends, else `RAX`.
pub open spec fn index_extension_code(rm: Option<SizedMnemonicArgument>) -> u8 {
    match rm {
        Some(SizedMnemonicArgument::IndirectMemoryReference { index, .. }) => match index {
            Some(i) => i.register.code,
            None => RAX_CODE,
        },
        _ => RAX_CODE,
    }
}

/// Register numbers that the prefix encoder reads from the operands.
pub fn direct_register_identifier(a: &Option<SizedMnemonicArgument>) -> (r: RegisterIdentifier)
    ensures
        r.code == direct_register_code(*a),
{
    match a {
        Some(SizedMnemonicArgument::DirectRegisterReference { register, .. }) => register.identifier(),
        _ => RegisterIdentifier::rax(),
    }
}

/// The base and index register numbers of an r/m operand, `RAX` where absent.
pub fn base_and_index_identifiers(rm: &Option<SizedMnemonicArgument>) -> (r: (
    RegisterIdentifier,
    RegisterIdentifier,
))
    ensures
        r.0.code == base_extension_code(*rm),
        r.1.code == index_extension_code(*rm),
{
    match rm {
        Some(SizedMnemonicArgument::DirectRegisterReference { register, .. }) => (
            register.identifier(),
            RegisterIdentifier::rax(),
        ),
        Some(SizedMnemonicArgument::IndirectMemoryReference { base, index, .. }) => (
            match base {
                Some(b) => b.identifier(),
                None => RegisterIdentifier::rax(),
            },
            match index {
                Some(i) => i.register.identifier(),
                None => RegisterIdentifier::rax(),
            },
        ),
        _ => (RegisterIdentifier::rax(), RegisterIdentifier::rax()),
    }
}

/// The flags of a mnemonic signature that the encoder consults.
#[derive(Debug, Clone, Copy, PartialEq, Eq, Structural)]
pub struct InstructionFlags {
    /// Encoded with a VEX prefix.
    pub vex_op: bool,
    /// Encoded with an XOP prefix.
    pub xop_op: bool,
    /// The r/m register is added to the last opcode byte.
    pub short_arg: bool,
}

impl InstructionFlags {
    pub fn none() -> (r: Self)
        ensures
            !r.vex_op && !r.xop_op && !r.short_arg,
    {
        InstructionFlags { vex_op: false, xop_op: false, short_arg: false }
    }

    pub fn vex_operation_or_xop_operation() -> (r: Self)
        ensures
            r.vex_op && r.xop_op && !r.short_arg,
    {
        InstructionFlags { vex_op: true, xop_op: true, short_arg: false }
    }

    /// Every flag of `other` is set here.
    pub fn contains(self, other: Self) -> (r: bool)
        ensures
            r == ((other.vex_op ==> self.vex_op) && (other.xop_op ==> self.xop_op) && (
            other.short_arg ==> self.short_arg)),
    {
        (!other.vex_op || self.vex_op) && (!other.xop_op || self.xop_op) && (!other.short_arg
            || self.short_arg)
    }

    /// Some flag of `other` is set here.
    pub fn intersects(self, other: Self) -> (r: bool)
        ensures
            r == ((other.vex_op && self.vex_op) || (other.xop_op && self.xop_op) || (
            other.short_arg && self.short_arg)),
    {
        (other.vex_op && self.vex_op) || (other.xop_op && self.xop_op) || (other.short_arg
            && self.short_arg)
    }
}

/// An opcode template: its opcode bytes, its flags, and the constant that the
/// ModR/M reg field holds when it is an opcode extension (`/digit`).
#[derive(Debug, PartialEq, Eq)]
pub struct MnemonicDefinitionSignature {
    pub opcode_bytes: Vec<u8>,
    pub flags: InstructionFlags,
    pub reg_extension: Option<u8>,
}

impl MnemonicDefinitionSignature {
    /// VEX and XOP exclude each other; an opcode extension fits the reg field.
    pub open spec fn wf(&self) -> bool {
        !(self.flags.vex_op && self.flags.xop_op) && (self.reg_extension is Some
            ==> self.reg_extension->Some_0 < 8)
    }

    pub fn contains_flags(&self, flags: InstructionFlags) -> (r: bool)
        ensures
            r == ((flags.vex_op ==> self.flags.vex_op) && (flags.xop_op ==> self.flags.xop_op)
                && (flags.short_arg ==> self.flags.short_arg)),
    {
        self.flags.contains(flags)
    }

    pub fn intersects_flags(&self, flags: InstructionFlags) -> (r: bool)
        ensures
            r == ((flags.vex_op && self.flags.vex_op) || (flags.xop_op && self.flags.xop_op) || (
            flags.short_arg && self.flags.short_arg)),
    {
        self.flags.intersects(flags)
    }

    /// The register number of the ModR/M reg field.
    pub open spec fn reg_k_spec(&self, reg: Option<SizedMnemonicArgument>) -> u8 {
        match self.reg_extension {
            Some(digit) => digit,
            None => direct_register_code(reg),
        }
    }

    /// The ModR/M reg field: the opcode extension if there is one, else the
    /// reg operand's register, else `RAX` as a zero placeholder.
    pub fn reg_k(&self, reg: &Option<SizedMnemonicArgument>) -> (r: RegisterIdentifier)
        ensures
            r.code == self.reg_k_spec(*reg),
    {
        match self.reg_extension {
            Some(digit) => RegisterIdentifier { code: digit },
            None => direct_register_identifier(reg),
        }
    }
}

} // verus!
