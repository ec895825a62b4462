use vstd::prelude::*;

verus! {

/// A low-level register number, 0 to 31, as it is split over the ModR/M,
/// SIB, REX and VEX fields.
#[derive(Debug, Clone, Copy, PartialEq, Eq, Structural)]
pub struct RegisterIdentifier {
    pub code: u8,
}

/// Low three bits of a register number: the ModR/M and SIB field.
pub open spec fn low_bits(code: u8) -> u8 {
    code & 7
}

/// Bit 3 of a register number, left in place (`0` or `8`).
pub open spec fn extension_bit(code: u8) -> u8 {
    code & 8
}

/// Complement of bit 3 of a register number, left in place (`0` or `8`).
pub open spec fn inverted_extension_bit(code: u8) -> u8 {
    !code & 8
}

pub const RAX_CODE: u8 = 0;

pub const RSP_CODE: u8 = 4;

pub const RBP_CODE: u8 = 5;

impl RegisterIdentifier {
    /// `RAX`, also the placeholder for an unused field.
    pub fn rax() -> (r: Self)
        ensures
            r.code == RAX_CODE,
    {
        RegisterIdentifier { code: RAX_CODE }
    }

    /// `RSP`: in the r/m field it announces a SIB byte.
    pub fn rsp() -> (r: Self)
        ensures
            r.code == RSP_CODE,
    {
        RegisterIdentifier { code: RSP_CODE }
    }

    /// `RBP`: in the r/m field with MOD `00` it means a bare disp32
    /// (RIP-relative in long mode).
    pub fn rbp() -> (r: Self)
        ensures
            r.code == RBP_CODE,
    {
        RegisterIdentifier { code: RBP_CODE }
    }

    pub fn code(self) -> (r: u8)
        ensures
            r == self.code,
    {
        self.code
    }

    pub fn code_and_7(self) -> (r: u8)
        ensures
            r == low_bits(self.code),
            r < 8,
    {
        let c = self.code;
        assert(c & 7 < 8) by (bit_vector);
        c & 7
    }

    pub fn code_and_8(self) -> (r: u8)
        ensures
            r == extension_bit(self.code),
    {
        self.code & 8
    }

    pub fn code_and_8_then_invert(self) -> (r: u8)
        ensures
            r == inverted_extension_bit(self.code),
    {
        !self.code & 8
    }
}

/// The family a register belongs to, as far as addressing cares.
#[derive(Debug, Clone, Copy, PartialEq, Eq, Structural)]
pub enum RegisterKind {
    /// A general purpose register.
    General,
    /// The instruction pointer, `RIP`.
    InstructionPointer,
    /// An `XMM`, `YMM` or `ZMM` register.
    Vector,
    /// Any other register (segment, control, debug, mask, ...).
    Other,
}

/// A register operand: its family and its number.
#[derive(Debug, Clone, Copy, PartialEq, Eq, Structural)]
pub struct Register {
    pub kind: RegisterKind,
    pub code: u8,
}

impl Register {
    pub fn identifier(self) -> (r: RegisterIdentifier)
        ensures
            r.code == self.code,
    {
        RegisterIdentifier { code: self.code }
    }

    pub fn is_vector(self) -> (r: bool)
        ensures
            r == (self.kind == RegisterKind::Vector),
    {
        match self.kind {
            RegisterKind::Vector => true,
            _ => false,
        }
    }

    /// A base register is RIP: the addressing is RIP-relative.
    pub fn addressing_mode_is_rip_relative(base: &Option<Register>) -> (r: bool)
        ensures
            r == is_rip_base(*base),
    {
        match base {
            Some(b) => match b.kind {
                RegisterKind::InstructionPointer => true,
                _ => false,
            },
            None => false,
        }
    }

    /// A base register whose low bits are those of `RBP` (`RBP`, `R13`):
    /// with MOD `00` it would be read as a bare displacement.
    pub fn addressing_uses_rbp_base(base: &Option<Register>) -> (r: bool)
        ensures
            r == is_rbp_like_base(*base),
    {
        match base {
            Some(b) => b.code & 7 == RBP_CODE,
            None => false,
        }
    }
}

pub open spec fn is_rip_base(base: Option<Register>) -> bool {
    base is Some && base->Some_0.kind == RegisterKind::InstructionPointer
}

pub open spec fn is_rbp_like_base(base: Option<Register>) -> bool {
    base is Some && low_bits(base->Some_0.code) == RBP_CODE
}

/// The four segment registers numbered 0 to 3. `FS` and `GS` have their own
/// singleton forms.
#[derive(Debug, Clone, Copy, PartialEq, Eq, Structural)]
pub enum SegmentRegister {
    /// A data segment, the usual destination of string instructions.
    ES,
    /// The code segment.
    CS,
    /// The stack segment.
    SS,
    /// A data segment, usually for local data.
    DS,
}

pub open spec fn segment_register_index(s: SegmentRegister) -> u8 {
    match s {
        SegmentRegister::ES => 0,
        SegmentRegister::CS => 1,
        SegmentRegister::SS => 2,
        SegmentRegister::DS => 3,
    }
}

impl SegmentRegister {
    /// The register's number in the ModR/M reg field.
    pub fn index(self) -> (r: u8)
        ensures
            r == segment_register_index(self),
    {
        match self {
            SegmentRegister::ES => 0,
            SegmentRegister::CS => 1,
            SegmentRegister::SS => 2,
            SegmentRegister::DS => 3,
        }
    }
}

impl Default for SegmentRegister {
    fn default() -> (r: Self)
        ensures
            r == SegmentRegister::ES,
    {
        SegmentRegister::ES
    }
}

} // verus!
