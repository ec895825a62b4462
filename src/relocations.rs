use vstd::prelude::*;
use crate::error::InstructionEncodingError;
use crate::operands::{JumpVariant, Size, SupportedOperationalMode};

verus! {

/// How a relocated slot is to be filled.
#[derive(Debug, Clone, Copy, PartialEq, Eq, Structural)]
pub enum RelocationKind {
    /// With the distance from the end of the slot to the target.
    JumpTargetRelative,
    /// With the target's absolute address.
    Extern,
}

/// A slot of the stream whose value depends on a target resolved later.
#[derive(Debug, PartialEq, Eq)]
pub struct Relocation {
    pub kind: RelocationKind,
    pub target: JumpVariant,
    /// Position of the slot's first byte in the stream.
    pub offset: usize,
    pub size: Size,
}

/// The relocations of one instruction, with the mode it was encoded for.
#[derive(Debug, PartialEq, Eq)]
pub struct Relocations {
    pub mode: SupportedOperationalMode,
    pub entries: Vec<Relocation>,
}

impl SupportedOperationalMode {
    pub fn new_relocations(self) -> (r: Relocations)
        ensures
            r.mode == self,
            r.entries@.len() == 0,
    {
        Relocations { mode: self, entries: Vec::new() }
    }
}

/// Whether a bare target of this size can be registered in this mode.
pub open spec fn extern_registrable(mode: SupportedOperationalMode, size: Size) -> bool {
    mode == SupportedOperationalMode::Protected || size == Size::DWORD
}

impl Relocations {
    /// Records a slot that holds the distance to `target`.
    pub fn push_relative(&mut self, target: JumpVariant, size: Size, offset: usize)
        ensures
            final(self).mode == old(self).mode,
            final(self).entries@ == old(self).entries@.push(
                Relocation { kind: RelocationKind::JumpTargetRelative, target, offset, size },
            ),
    {
        self.entries.push(
            Relocation { kind: RelocationKind::JumpTargetRelative, target, offset, size },
        );
    }

    /// Records the displacement slot of a ModR/M jump or RIP-relative operand.
    pub fn push_jump_target_addressing(&mut self, target: JumpVariant, size: Size, offset: usize)
        ensures
            final(self).mode == old(self).mode,
            final(self).entries@ == old(self).entries@.push(
                Relocation { kind: RelocationKind::JumpTargetRelative, target, offset, size },
            ),
    {
        self.push_relative(target, size, offset);
    }

    /// Records a slot for a bare target: an absolute address in 32-bit mode,
    /// a 32-bit relative one in 64-bit mode, which has no other form for it.
    pub fn push_extern(&mut self, target: JumpVariant, size: Size, offset: usize) -> (r: Result<
        (),
        InstructionEncodingError,
    >)
        ensures
            final(self).mode == old(self).mode,
            r is Ok <==> extern_registrable(old(self).mode, size),
            r is Err ==> r->Err_0 == InstructionEncodingError::ExternJumpTargetNotRegistrable
                && final(self).entries@ == old(self).entries@,
            r is Ok ==> final(self).entries@ == old(self).entries@.push(
                Relocation {
                    kind: if old(self).mode == SupportedOperationalMode::Protected {
                        RelocationKind::Extern
                    } else {
                        RelocationKind::JumpTargetRelative
                    },
                    target,
                    offset,
                    size,
                },
            ),
    {
        match self.mode {
            SupportedOperationalMode::Protected => {
                self.entries.push(
                    Relocation { kind: RelocationKind::Extern, target, offset, size },
                );
                Ok(())
            },
            SupportedOperationalMode::Long => {
                match size {
                    Size::DWORD => {
                        self.push_relative(target, size, offset);
                        Ok(())
                    },
                    _ => Err(InstructionEncodingError::ExternJumpTargetNotRegistrable),
                }
            },
        }
    }
}

} // verus!
