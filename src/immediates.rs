use vstd::prelude::*;
use crate::error::InstructionEncodingError;
use crate::operands::{size_in_bytes, Expression, JumpVariant, Size, SizedMnemonicArgument, SupportedOperationalMode};
use crate::registers::RegisterIdentifier;
use crate::relocations::{extern_registrable, Relocation, RelocationKind, Relocations};
use crate::statements::{
    byte_emissions, le_bytes, lemma_byte_emissions_width, lemma_width_concat, stream_width,
    Emission, Statement, StatementsBuffer,
};

verus! {

/// The first remaining argument is a byte immediate: the register byte takes
/// its low nibble.
pub open spec fn merges_first_immediate(immediates: Seq<SizedMnemonicArgument>) -> bool {
    immediates.len() > 0 && immediates[0] is Immediate && immediates[0]->Immediate_size
        == Size::BYTE
}

/// The byte that carries a register in its high nibble: its value.
pub open spec fn register_in_immediate_value(code: u8, immediates: Seq<SizedMnemonicArgument>) -> Expression {
    let literal = (code << 4u8) as u8;
    if merges_first_immediate(immediates) {
        Expression::MaskedOr {
            literal,
            value: Box::new(immediates[0]->Immediate_value),
            mask: 0xF,
        }
    } else {
        Expression::Constant(literal as i64)
    }
}

pub open spec fn register_in_immediate_emissions(
    ireg: Option<SizedMnemonicArgument>,
    immediates: Seq<SizedMnemonicArgument>,
) -> Seq<Emission> {
    match ireg {
        Some(SizedMnemonicArgument::DirectRegisterReference { register, .. }) => seq![
            Emission::Slot(
                Statement::UnsignedExpression {
                    value: register_in_immediate_value(register.code, immediates),
                    size: Size::BYTE,
                },
            ),
        ],
        _ => Seq::empty(),
    }
}

/// The immediates left once the register byte has taken a byte immediate.
pub open spec fn immediates_after_register(
    ireg: Option<SizedMnemonicArgument>,
    immediates: Seq<SizedMnemonicArgument>,
) -> Seq<SizedMnemonicArgument> {
    match ireg {
        Some(SizedMnemonicArgument::DirectRegisterReference { .. }) => if merges_first_immediate(
            immediates,
        ) {
            immediates.skip(1)
        } else {
            immediates
        },
        _ => immediates,
    }
}

/// The register fits the high nibble.
pub open spec fn register_in_immediate_consistent(ireg: Option<SizedMnemonicArgument>) -> bool {
    match ireg {
        Some(SizedMnemonicArgument::DirectRegisterReference { register, .. }) => register.code < 16,
        _ => true,
    }
}

pub open spec fn is_immediate_like(a: SizedMnemonicArgument) -> bool {
    a is Immediate || a is JumpTarget
}

pub open spec fn immediates_consistent(immediates: Seq<SizedMnemonicArgument>) -> bool {
    forall|i: int| 0 <= i < immediates.len() ==> is_immediate_like(#[trigger] immediates[i])
}

pub open spec fn immediate_emissions(a: SizedMnemonicArgument) -> Seq<Emission> {
    match a {
        SizedMnemonicArgument::Immediate { value, size } => seq![
            Emission::Slot(Statement::SignedExpression { value, size }),
        ],
        SizedMnemonicArgument::JumpTarget { size, .. } => byte_emissions(
            le_bytes(0, size_in_bytes(size)),
        ),
        _ => Seq::empty(),
    }
}

pub open spec fn immediates_emissions(s: Seq<SizedMnemonicArgument>) -> Seq<Emission>
    decreases s.len(),
{
    if s.len() == 0 {
        Seq::empty()
    } else {
        immediates_emissions(s.drop_last()) + immediate_emissions(s.last())
    }
}

/// A jump target whose placeholder starts at `offset`: a relocation, absolute
/// for a bare target in 32-bit mode, relative otherwise.
pub open spec fn immediate_relocations(
    mode: SupportedOperationalMode,
    a: SizedMnemonicArgument,
    offset: nat,
) -> Seq<Relocation> {
    match a {
        SizedMnemonicArgument::JumpTarget { jump_variant, size } => seq![
            Relocation {
                kind: if jump_variant is Bare && mode == SupportedOperationalMode::Protected {
                    RelocationKind::Extern
                } else {
                    RelocationKind::JumpTargetRelative
                },
                target: jump_variant,
                offset: offset as usize,
                size,
            },
        ],
        _ => Seq::empty(),
    }
}

pub open spec fn immediates_relocations(
    mode: SupportedOperationalMode,
    s: Seq<SizedMnemonicArgument>,
    start: nat,
) -> Seq<Relocation>
    decreases s.len(),
{
    if s.len() == 0 {
        Seq::empty()
    } else {
        immediates_relocations(mode, s.drop_last(), start) + immediate_relocations(
            mode,
            s.last(),
            start + stream_width(immediates_emissions(s.drop_last())),
        )
    }
}

/// A bare jump target that the relocations cannot register.
pub open spec fn immediate_fails(mode: SupportedOperationalMode, a: SizedMnemonicArgument) -> bool {
    a is JumpTarget && a->JumpTarget_jump_variant is Bare && !extern_registrable(
        mode,
        a->JumpTarget_size,
    )
}

pub open spec fn immediates_fail(mode: SupportedOperationalMode, s: Seq<SizedMnemonicArgument>) -> bool {
    exists|i: int| 0 <= i < s.len() && immediate_fails(mode, #[trigger] s[i])
}

/// The argument at `k` is the first one that fails.
pub open spec fn first_failure(
    mode: SupportedOperationalMode,
    s: Seq<SizedMnemonicArgument>,
    k: int,
) -> bool {
    0 <= k < s.len() && immediate_fails(mode, s[k]) && !immediates_fail(mode, s.take(k))
}

pub proof fn lemma_immediate_width(a: SizedMnemonicArgument)
    requires
        is_immediate_like(a),
    ensures
        stream_width(immediate_emissions(a)) == size_in_bytes(
            match a {
                SizedMnemonicArgument::Immediate { size, .. } => size,
                SizedMnemonicArgument::JumpTarget { size, .. } => size,
                _ => Size::BYTE,
            },
        ),
        stream_width(immediate_emissions(a)) <= 8,
{
    match a {
        SizedMnemonicArgument::JumpTarget { size, .. } => {
            lemma_byte_emissions_width(le_bytes(0, size_in_bytes(size)));
        },
        _ => {
            let e = immediate_emissions(a);
            assert(e.drop_last() =~= Seq::<Emission>::empty());
            assert(stream_width(Seq::<Emission>::empty()) == 0);
        },
    }
}

impl StatementsBuffer {
    /// An opcode byte that some instructions place after the displacement.
    pub(crate) fn push_immediate_opcode_byte_after_addressing_displacement(
        &mut self,
        immediate_opcode_byte: Option<u8>,
    )
        requires
            old(self).wf(),
            old(self).stream_len() + 1 <= usize::MAX,
        ensures
            final(self).wf(),
            final(self).stream_len() <= old(self).stream_len() + 1,
            old(self).stream_len() <= final(self).stream_len(),
            final(self)@ == old(self)@ + crate::statements::optional_byte(immediate_opcode_byte),
    {
        self.push_byte_if_some(immediate_opcode_byte);
    }

    /// A register carried in the high nibble of an immediate byte. A byte
    /// immediate that comes next is merged into the low nibble and taken;
    /// any other argument stays for the immediates.
    pub(crate) fn push_register_in_immediate(
        &mut self,
        ireg: Option<SizedMnemonicArgument>,
        remaining_arguments: &mut Vec<SizedMnemonicArgument>,
    )
        requires
            old(self).wf(),
            old(self).stream_len() + 1 <= usize::MAX,
            register_in_immediate_consistent(ireg),
        ensures
            final(self).wf(),
            final(self).stream_len() <= old(self).stream_len() + 1,
            old(self).stream_len() <= final(self).stream_len(),
            final(self)@ == old(self)@ + register_in_immediate_emissions(
                ireg,
                old(remaining_arguments)@,
            ),
            final(remaining_arguments)@ == immediates_after_register(ireg, old(remaining_arguments)@),
    {
        let ghost ireg_spec = ireg;
        let ghost arguments = remaining_arguments@;
        if let Some(SizedMnemonicArgument::DirectRegisterReference { register, .. }) = ireg {
            let literal = RegisterIdentifier { code: register.code }.code() << 4u8;
            let merges = remaining_arguments.len() > 0 && match &remaining_arguments[0] {
                SizedMnemonicArgument::Immediate { size: Size::BYTE, .. } => true,
                _ => false,
            };
            let byte_expression = if merges {
                match remaining_arguments.remove(0) {
                    SizedMnemonicArgument::Immediate { value, .. } => Expression::or_with_masked_value(
                        literal,
                        value,
                        0xF,
                    ),
                    _ => Expression::literal_byte(literal),
                }
            } else {
                Expression::literal_byte(literal)
            };
            self.push_unsigned_expression(byte_expression, Size::BYTE);
            proof {
                assert(remaining_arguments@ =~= immediates_after_register(ireg_spec, arguments));
            }
        } else {
            proof {
                assert(self@ =~= old(self)@ + register_in_immediate_emissions(ireg_spec, arguments));
            }
        }
    }

    /// The immediates and jump-target placeholders, in order, with a
    /// relocation for each jump target.
    pub(crate) fn push_immediates(
        &mut self,
        remaining_arguments: Vec<SizedMnemonicArgument>,
        relocations: &mut Relocations,
    ) -> (r: Result<(), InstructionEncodingError>)
        requires
            old(self).wf(),
            old(self).stream_len() + 8 * remaining_arguments@.len() <= usize::MAX,
            immediates_consistent(remaining_arguments@),
            forall|i: int|
                0 <= i < old(relocations).entries@.len() ==> #[trigger] old(relocations).entries@[i].offset
                    + size_in_bytes(old(relocations).entries@[i].size) <= old(self).stream_len(),
        ensures
            final(self).wf(),
            final(self).stream_len() <= old(self).stream_len() + 8 * remaining_arguments@.len(),
            final(relocations).mode == old(relocations).mode,
            r is Err <==> immediates_fail(old(relocations).mode, remaining_arguments@),
            r is Err ==> r->Err_0 == InstructionEncodingError::ExternJumpTargetNotRegistrable
                && exists|k: int|
                #![trigger first_failure(old(relocations).mode, remaining_arguments@, k)]
                first_failure(old(relocations).mode, remaining_arguments@, k) && final(self)@
                    == old(self)@ + immediates_emissions(remaining_arguments@.take(k + 1)),
            r is Ok ==> final(self)@ == old(self)@ + immediates_emissions(remaining_arguments@)
                && final(relocations).entries@ == old(relocations).entries@
                + immediates_relocations(
                old(relocations).mode,
                remaining_arguments@,
                old(self).stream_len(),
            ),
            forall|i: int|
                0 <= i < final(relocations).entries@.len() ==> #[trigger] final(relocations).entries@[i].offset
                    + size_in_bytes(final(relocations).entries@[i].size) <= final(self).stream_len(),
    {
        let ghost arguments = remaining_arguments@;
        let ghost start = self.stream_len();
        let ghost mode = relocations.mode;
        let ghost old_entries = relocations.entries@;
        let mut remaining = remaining_arguments;
        let n = remaining.len();
        let mut k: usize = 0;
        while remaining.len() > 0
            invariant
                mode == old(relocations).mode,
                start == old(self).stream_len(),
                arguments == remaining_arguments@,
                n == arguments.len(),
                k <= n,
                remaining@ == arguments.skip(k as int),
                immediates_consistent(arguments),
                self.wf(),
                self@ == old(self)@ + immediates_emissions(arguments.take(k as int)),
                self.stream_len() == start + stream_width(immediates_emissions(arguments.take(k as int))),
                stream_width(immediates_emissions(arguments.take(k as int))) <= 8 * k,
                start + 8 * n <= usize::MAX,
                relocations.mode == mode,
                relocations.entries@ == old_entries + immediates_relocations(
                    mode,
                    arguments.take(k as int),
                    start,
                ),
                !immediates_fail(mode, arguments.take(k as int)),
                forall|i: int|
                    0 <= i < relocations.entries@.len() ==> #[trigger] relocations.entries@[i].offset
                        + size_in_bytes(relocations.entries@[i].size) <= self.stream_len(),
            decreases n - k,
        {
            let ghost before = self@;
            let ghost before_entries = relocations.entries@;
            let ghost prefix = arguments.take(k as int);
            let ghost next = arguments.take(k + 1);
            proof {
                assert(remaining@.len() == n - k);
                assert(k < n);
                assert(next.drop_last() =~= prefix);
                assert(next.last() == arguments[k as int]);
                assert(remaining@[0] == arguments[k as int]);
                assert(is_immediate_like(arguments[k as int]));
                lemma_immediate_width(arguments[k as int]);
                lemma_width_concat(immediates_emissions(prefix), immediate_emissions(arguments[k as int]));
            }
            let argument = remaining.remove(0);
            match argument {
                SizedMnemonicArgument::Immediate { value, size } => {
                    self.push_signed_expression(value, size);
                    proof {
                        assert(relocations.entries@ =~= old_entries + immediates_relocations(
                            mode,
                            next,
                            start,
                        ));
                    }
                },
                SizedMnemonicArgument::JumpTarget { jump_variant, size } => {
                    let offset = self.len();
                    self.push_unsigned_constant(0, size);
                    let is_bare = match &jump_variant {
                        JumpVariant::Bare(_) => true,
                        _ => false,
                    };
                    if is_bare {
                        let pushed = relocations.push_extern(jump_variant, size, offset);
                        if pushed.is_err() {
                            proof {
                                assert(self@ =~= old(self)@ + immediates_emissions(next));
                                assert(first_failure(mode, arguments, k as int));
                                assert(jump_variant is Bare);
                                assert(!extern_registrable(mode, size));
                                assert(arguments[k as int] == SizedMnemonicArgument::JumpTarget { jump_variant, size });
                                assert(immediate_fails(mode, arguments[k as int]));
                                assert(immediates_fail(mode, arguments));
                            }
                            return pushed;
                        }
                    } else {
                        relocations.push_relative(jump_variant, size, offset);
                    }
                    proof {
                        assert(relocations.entries@ =~= old_entries + immediates_relocations(
                            mode,
                            next,
                            start,
                        ));
                    }
                },
                _ => {},
            }
            proof {
                assert(self@ =~= old(self)@ + immediates_emissions(next));
                assert(!immediate_fails(mode, arguments[k as int]));
                assert forall|i: int| 0 <= i < next.len() implies !immediate_fails(mode, #[trigger] next[i]) by {
                    if i < k {
                        assert(next[i] == prefix[i]);
                    }
                }
            }
            k = k + 1;
        }
        proof {
            assert(arguments.take(n as int) =~= arguments);
        }
        Ok(())
    }
}

} // verus!
