use vstd::prelude::*;
use crate::operands::{size_in_bytes, Expression, Size};

verus! {

/// One entry of the emitted stream, as a downstream code generator receives it.
#[derive(Debug, PartialEq, Eq)]
pub enum Statement {
    /// Opens the function that writes the code; carries its name.
    FunctionStart(String),
    /// A run of literal bytes.
    Bytes(Vec<u8>),
    /// A signed value of the given width, little-endian.
    SignedExpression { value: Expression, size: Size },
    /// An unsigned value of the given width, little-endian.
    UnsignedExpression { value: Expression, size: Size },
    /// A SIB byte whose scale is `scale * expression`:
    /// `(encoded scale << 6) | (index << 3) | base`.
    ScaledIndexByte { scale: u8, expression: Expression, index: u8, base: u8 },
    /// Closes the function.
    FunctionEnd,
}

/// The stream seen one literal byte at a time: each literal byte, or one
/// non-literal statement.
pub enum Emission {
    Byte(u8),
    Slot(Statement),
}

/// How many bytes of code a statement stands for.
pub open spec fn statement_width(s: Statement) -> nat {
    match s {
        Statement::FunctionStart(_) => 0,
        Statement::Bytes(v) => v@.len(),
        Statement::SignedExpression { size, .. } => size_in_bytes(size),
        Statement::UnsignedExpression { size, .. } => size_in_bytes(size),
        Statement::ScaledIndexByte { .. } => 1,
        Statement::FunctionEnd => 0,
    }
}

pub open spec fn emission_width(e: Emission) -> nat {
    match e {
        Emission::Byte(_) => 1,
        Emission::Slot(s) => statement_width(s),
    }
}

/// Total number of bytes of code in a stream.
pub open spec fn stream_width(s: Seq<Emission>) -> nat
    decreases s.len(),
{
    if s.len() == 0 {
        0
    } else {
        stream_width(s.drop_last()) + emission_width(s.last())
    }
}

pub open spec fn byte_emissions(bytes: Seq<u8>) -> Seq<Emission> {
    bytes.map_values(|b: u8| Emission::Byte(b))
}

pub open spec fn statement_emissions(s: Statement) -> Seq<Emission> {
    match s {
        Statement::Bytes(v) => byte_emissions(v@),
        _ => seq![Emission::Slot(s)],
    }
}

pub open spec fn flatten(statements: Seq<Statement>) -> Seq<Emission>
    decreases statements.len(),
{
    if statements.len() == 0 {
        Seq::empty()
    } else {
        flatten(statements.drop_last()) + statement_emissions(statements.last())
    }
}

/// `value` as `n` little-endian bytes.
pub open spec fn le_bytes(value: u64, n: nat) -> Seq<u8> {
    Seq::new(n, |i: int| ((value >> (8 * i) as u64) & 0xff) as u8)
}

/// Whether `value` fits in a field of this size.
pub open spec fn fits_unsigned(value: u64, size: Size) -> bool {
    match size {
        Size::BYTE => value <= 0xff,
        Size::WORD => value <= 0xffff,
        Size::DWORD => value <= 0xffff_ffff,
        Size::QWORD => true,
    }
}

pub proof fn lemma_width_push(s: Seq<Emission>, e: Emission)
    ensures
        stream_width(s.push(e)) == stream_width(s) + emission_width(e),
{
    assert(s.push(e).drop_last() =~= s);
}

pub proof fn lemma_width_concat(a: Seq<Emission>, b: Seq<Emission>)
    ensures
        stream_width(a + b) == stream_width(a) + stream_width(b),
    decreases b.len(),
{
    if b.len() == 0 {
        assert(a + b =~= a);
    } else {
        lemma_width_concat(a, b.drop_last());
        assert((a + b).drop_last() =~= a + b.drop_last());
    }
}

pub proof fn lemma_byte_emissions_width(bytes: Seq<u8>)
    ensures
        stream_width(byte_emissions(bytes)) == bytes.len(),
    decreases bytes.len(),
{
    if bytes.len() > 0 {
        lemma_byte_emissions_width(bytes.drop_last());
        assert(byte_emissions(bytes).drop_last() =~= byte_emissions(bytes.drop_last()));
    }
}

pub proof fn lemma_statement_width(s: Statement)
    ensures
        stream_width(statement_emissions(s)) == statement_width(s),
{
    match s {
        Statement::Bytes(v) => {
            lemma_byte_emissions_width(v@);
            assert(statement_emissions(s) == byte_emissions(v@));
            assert(statement_width(s) == v@.len());
        },
        _ => {
            assert(seq![Emission::Slot(s)].drop_last() =~= Seq::<Emission>::empty());
            assert(stream_width(Seq::<Emission>::empty()) == 0);
        },
    }
}

/// Accumulates literal bytes and hands them on as one `Bytes` statement
/// whenever a symbolic slot follows, or at the end.
pub struct StatementsBuffer {
    statements: Vec<Statement>,
    accumulated_bytes_so_far: Vec<u8>,
    length: usize,
}

impl View for StatementsBuffer {
    type V = Seq<Emission>;

    closed spec fn view(&self) -> Seq<Emission> {
        flatten(self.statements@) + byte_emissions(self.accumulated_bytes_so_far@)
    }
}

impl StatementsBuffer {
    /// Bytes of code emitted so far.
    pub open spec fn stream_len(&self) -> nat {
        stream_width(self@)
    }

    pub closed spec fn wf(&self) -> bool {
        self.length == self.stream_len()
    }

    /// The statements handed on so far (literal bytes still buffered are
    /// not among them).
    pub closed spec fn flushed(&self) -> Seq<Statement> {
        self.statements@
    }

    /// The literal bytes not yet handed on.
    pub closed spec fn buffered(&self) -> Seq<u8> {
        self.accumulated_bytes_so_far@
    }

    /// The stream is what was handed on, then what is buffered.
    pub proof fn lemma_view_parts(&self)
        ensures
            self@ == flatten(self.flushed()) + byte_emissions(self.buffered()),
    {
    }

    /// Nothing is buffered.
    pub closed spec fn is_flushed(&self) -> bool {
        self.accumulated_bytes_so_far@.len() == 0
    }

    /// Starts the function `function_name`.
    pub fn new(function_name: String) -> (r: Self)
        ensures
            r.buffered().len() == 0,
            r.wf(),
            r@ == seq![Emission::Slot(Statement::FunctionStart(function_name))],
            r.stream_len() == 0,
            r.flushed() == seq![Statement::FunctionStart(function_name)],
            r.is_flushed(),
    {
        let mut this = StatementsBuffer {
            statements: Vec::with_capacity(4096),
            accumulated_bytes_so_far: Vec::new(),
            length: 0,
        };
        this.write_preamble(function_name);
        proof {
            assert(this.statements@.drop_last() =~= Seq::<Statement>::empty());
            assert(flatten(Seq::<Statement>::empty()) =~= Seq::<Emission>::empty());
            assert(byte_emissions(this.accumulated_bytes_so_far@) =~= Seq::<Emission>::empty());
            assert(this@ =~= seq![Emission::Slot(Statement::FunctionStart(function_name))]);
            lemma_statement_width(Statement::FunctionStart(function_name));
        }
        this
    }

    fn write_preamble(&mut self, function_name: String)
        requires
            old(self).statements@.len() == 0,
        ensures
            final(self).statements@ == seq![Statement::FunctionStart(function_name)],
            final(self).accumulated_bytes_so_far == old(self).accumulated_bytes_so_far,
            final(self).length == old(self).length,
    {
        self.statements.push(Statement::FunctionStart(function_name));
        proof {
            assert(self.statements@ =~= seq![Statement::FunctionStart(function_name)]);
        }
    }

    fn write_postamble(&mut self)
        requires
            old(self).wf(),
            old(self).is_flushed(),
        ensures
            final(self).wf(),
            final(self)@ == old(self)@.push(Emission::Slot(Statement::FunctionEnd)),
            final(self).flushed() == old(self).flushed().push(Statement::FunctionEnd),
            final(self).is_flushed(),
    {
        self.push_statement(Statement::FunctionEnd);
    }

    /// Hands on what is buffered and closes the function.
    pub fn finish(&mut self)
        requires
            old(self).wf(),
        ensures
            final(self).flushed().len() > 0,
            handed_on(old(self).flushed(), old(self).buffered(), final(self).flushed().drop_last()),
            final(self).flushed().last() == Statement::FunctionEnd,
            final(self).is_flushed(),
            final(self).wf(),
            final(self)@ == old(self)@.push(Emission::Slot(Statement::FunctionEnd)),
            final(self).is_flushed(),
            final(self).flushed().last() == Statement::FunctionEnd,
            flatten(final(self).flushed()) == final(self)@,
    {
        self.flush_bytes();
        let ghost mid = self.flushed();
        self.write_postamble();
        proof {
            assert(byte_emissions(self.accumulated_bytes_so_far@) =~= Seq::<Emission>::empty());
            assert(self@ =~= flatten(self.statements@));
            assert(self.flushed().drop_last() =~= mid);
        }
    }

    /// Bytes of code emitted so far.
    pub fn len(&self) -> (r: usize)
        requires
            self.wf(),
        ensures
            r == self.stream_len(),
    {
        self.length
    }

    /// The statements handed on so far.
    pub fn statements(&self) -> (r: &Vec<Statement>)
        ensures
            r@ == self.flushed(),
    {
        &self.statements
    }

    /// The statements handed on, taking the buffer apart.
    pub fn into_statements(self) -> (r: Vec<Statement>)
        ensures
            r@ == self.flushed(),
    {
        self.statements
    }

    /// Appends a statement; literal bytes must have been handed on before.
    fn push_statement(&mut self, s: Statement)
        requires
            old(self).wf(),
            old(self).is_flushed(),
            old(self).stream_len() + statement_width(s) <= usize::MAX,
        ensures
            final(self).stream_len() == old(self).stream_len() + statement_width(s),
            final(self).wf(),
            final(self).is_flushed(),
            final(self)@ == old(self)@ + statement_emissions(s),
            final(self).flushed() == old(self).flushed().push(s),
    {
        let ghost old_view = self@;
        let ghost old_statements = self.statements@;
        let w = statement_size(&s);
        self.statements.push(s);
        self.length = self.length + w;
        proof {
            assert(self.statements@.drop_last() =~= old_statements);
            assert(byte_emissions(self.accumulated_bytes_so_far@) =~= Seq::<Emission>::empty());
            assert(old_view =~= flatten(old_statements));
            assert(self@ =~= flatten(self.statements@));
            lemma_width_concat(old_view, statement_emissions(s));
            lemma_statement_width(s);
        }
    }

    /// Hands the buffered literal bytes on as one statement.
    fn flush_bytes(&mut self)
        requires
            old(self).wf(),
        ensures
            handed_on(old(self).flushed(), old(self).buffered(), final(self).flushed()),
            final(self).stream_len() == old(self).stream_len(),
            final(self).wf(),
            final(self).is_flushed(),
            final(self)@ == old(self)@,
            old(self).is_flushed() ==> final(self).flushed() == old(self).flushed(),
    {
        if self.accumulated_bytes_so_far.len() == 0 {
            return ;
        }
        let ghost old_view = self@;
        let ghost old_statements = self.statements@;
        let mut bytes: Vec<u8> = Vec::new();
        std::mem::swap(&mut bytes, &mut self.accumulated_bytes_so_far);
        self.statements.push(Statement::Bytes(bytes));
        proof {
            assert(self.statements@.drop_last() =~= old_statements);
            assert(byte_emissions(self.accumulated_bytes_so_far@) =~= Seq::<Emission>::empty());
            assert(self@ =~= old_view);
        }
    }

    pub(crate) fn push_byte(&mut self, byte: u8)
        requires
            old(self).wf(),
            old(self).stream_len() + 1 <= usize::MAX,
        ensures
            final(self).buffered() == old(self).buffered().push(byte),
            final(self).stream_len() == old(self).stream_len() + 1,
            final(self).wf(),
            final(self)@ == old(self)@.push(Emission::Byte(byte)),
            final(self).flushed() == old(self).flushed(),
    {
        let ghost old_view = self@;
        self.accumulated_bytes_so_far.push(byte);
        self.length = self.length + 1;
        proof {
            assert(self@ =~= old_view.push(Emission::Byte(byte)));
            lemma_width_push(old_view, Emission::Byte(byte));
        }
    }

    pub(crate) fn push_bytes(&mut self, bytes: &[u8])
        requires
            old(self).wf(),
            old(self).stream_len() + bytes@.len() <= usize::MAX,
        ensures
            final(self).buffered() == old(self).buffered() + bytes@,
            final(self).stream_len() == old(self).stream_len() + bytes@.len(),
            final(self).wf(),
            final(self)@ == old(self)@ + byte_emissions(bytes@),
            final(self).flushed() == old(self).flushed(),
    {
        let ghost old_view = self@;
        let n = bytes.len();
        let mut i: usize = 0;
        while i < n
            invariant
                n == bytes@.len(),
                i <= n,
                self.wf(),
                self@ == old_view + byte_emissions(bytes@.take(i as int)),
                self.buffered() == old(self).buffered() + bytes@.take(i as int),
                self.stream_len() == stream_width(old_view) + i,
                stream_width(old_view) + n <= usize::MAX,
                self.flushed() == old(self).flushed(),
            decreases n - i,
        {
            let ghost prev = self@;
            self.push_byte(bytes[i]);
            proof {
                assert(bytes@.take(i + 1) =~= bytes@.take(i as int).push(bytes@[i as int]));
                assert(byte_emissions(bytes@.take(i + 1)) =~= byte_emissions(
                    bytes@.take(i as int),
                ).push(Emission::Byte(bytes@[i as int])));
                lemma_width_push(prev, Emission::Byte(bytes@[i as int]));
            }
            i = i + 1;
        }
        proof {
            assert(bytes@.take(n as int) =~= bytes@);
        }
    }

    pub(crate) fn push_byte_if_some(&mut self, byte: Option<u8>)
        requires
            old(self).wf(),
            old(self).stream_len() + 1 <= usize::MAX,
        ensures
            final(self).buffered() == (match byte {
                Some(b) => old(self).buffered().push(b),
                None => old(self).buffered(),
            }),
            final(self).stream_len() == old(self).stream_len() + if byte is Some { 1int } else { 0int },
            final(self).wf(),
            final(self)@ == old(self)@ + optional_byte(byte),
            final(self).flushed() == old(self).flushed(),
    {
        if let Some(byte) = byte {
            self.push_byte(byte);
        }
        proof {
            assert(self@ =~= old(self)@ + optional_byte(byte));
        }
    }

    pub(crate) fn push_byte_if(&mut self, condition: bool, byte: u8)
        requires
            old(self).wf(),
            old(self).stream_len() + 1 <= usize::MAX,
        ensures
            final(self).buffered() == (if condition {
                old(self).buffered().push(byte)
            } else {
                old(self).buffered()
            }),
            final(self).stream_len() == old(self).stream_len() + if condition { 1int } else { 0int },
            final(self).wf(),
            final(self)@ == old(self)@ + optional_byte(if condition { Some(byte) } else { None }),
            final(self).flushed() == old(self).flushed(),
    {
        if condition {
            self.push_byte(byte);
        }
        proof {
            assert(self@ =~= old(self)@ + optional_byte(
                if condition { Some(byte) } else { None },
            ));
        }
    }

    /// `value` as little-endian bytes of the given width.
    pub(crate) fn push_unsigned_constant(&mut self, value: u64, size: Size)
        requires
            old(self).wf(),
            old(self).stream_len() + size_in_bytes(size) <= usize::MAX,
            fits_unsigned(value, size),
        ensures
            final(self).buffered() == old(self).buffered() + le_bytes(value, size_in_bytes(size)),
            final(self).stream_len() == old(self).stream_len() + size_in_bytes(size),
            final(self).wf(),
            final(self)@ == old(self)@ + byte_emissions(le_bytes(value, size_in_bytes(size))),
            final(self).flushed() == old(self).flushed(),
    {
        let ghost old_view = self@;
        let n = size.in_bytes();
        let mut i: usize = 0;
        let mut rest: u64 = value;
        assert(value >> 0u64 == value) by (bit_vector);
        while i < n
            invariant
                n == size_in_bytes(size),
                n <= 8,
                i <= n,
                rest == value >> (8 * i) as u64,
                self.wf(),
                self@ == old_view + byte_emissions(le_bytes(value, n as nat).take(i as int)),
                self.buffered() == old(self).buffered() + le_bytes(value, n as nat).take(i as int),
                self.stream_len() == stream_width(old_view) + i,
                stream_width(old_view) + n <= usize::MAX,
                self.flushed() == old(self).flushed(),
            decreases n - i,
        {
            let byte = #[verifier::truncate] ((rest & 0xff) as u8);
            let ghost prev = self@;
            self.push_byte(byte);
            proof {
                assert(le_bytes(value, n as nat).take(i + 1) =~= le_bytes(value, n as nat).take(
                    i as int,
                ).push(byte));
                assert(byte_emissions(le_bytes(value, n as nat).take(i + 1)) =~= byte_emissions(
                    le_bytes(value, n as nat).take(i as int),
                ).push(Emission::Byte(byte)));
                lemma_width_push(prev, Emission::Byte(byte));
                let k = (8 * i) as u64;
                assert(k < 64);
                assert((value >> k) >> 8u64 == value >> ((k + 8) as u64)) by (bit_vector)
                    requires
                        k < 64,
                ;
            }
            rest = rest >> 8;
            i = i + 1;
        }
        proof {
            assert(le_bytes(value, n as nat).take(n as int) =~= le_bytes(value, n as nat));
        }
    }

    pub(crate) fn push_u32(&mut self, value: u32)
        requires
            old(self).wf(),
            old(self).stream_len() + 4 <= usize::MAX,
        ensures
            final(self).buffered() == old(self).buffered() + le_bytes(value as u64, 4),
            final(self).stream_len() == old(self).stream_len() + 4,
            final(self).wf(),
            final(self)@ == old(self)@ + byte_emissions(le_bytes(value as u64, 4)),
            final(self).flushed() == old(self).flushed(),
    {
        self.push_unsigned_constant(value as u64, Size::DWORD)
    }

    /// A signed slot of the given width, after the buffered bytes.
    pub(crate) fn push_signed_expression(&mut self, value: Expression, size: Size)
        requires
            old(self).wf(),
            old(self).stream_len() + size_in_bytes(size) <= usize::MAX,
        ensures
            final(self).flushed().len() > 0,
            handed_on(old(self).flushed(), old(self).buffered(), final(self).flushed().drop_last()),
            final(self).flushed().last() == (Statement::SignedExpression { value, size }),
            final(self).is_flushed(),
            final(self).stream_len() == old(self).stream_len() + size_in_bytes(size),
            final(self).wf(),
            final(self)@ == old(self)@.push(
                Emission::Slot(Statement::SignedExpression { value, size }),
            ),
    {
        self.flush_bytes();
        let ghost mid = self.flushed();
        self.push_statement(Statement::SignedExpression { value, size });
        proof {
            assert(self.flushed().drop_last() =~= mid);
        }
    }

    /// An unsigned slot of the given width, after the buffered bytes.
    pub(crate) fn push_unsigned_expression(&mut self, value: Expression, size: Size)
        requires
            old(self).wf(),
            old(self).stream_len() + size_in_bytes(size) <= usize::MAX,
        ensures
            final(self).flushed().len() > 0,
            handed_on(old(self).flushed(), old(self).buffered(), final(self).flushed().drop_last()),
            final(self).flushed().last() == (Statement::UnsignedExpression { value, size }),
            final(self).is_flushed(),
            final(self).stream_len() == old(self).stream_len() + size_in_bytes(size),
            final(self).wf(),
            final(self)@ == old(self)@.push(
                Emission::Slot(Statement::UnsignedExpression { value, size }),
            ),
    {
        self.flush_bytes();
        let ghost mid = self.flushed();
        self.push_statement(Statement::UnsignedExpression { value, size });
        proof {
            assert(self.flushed().drop_last() =~= mid);
        }
    }

    /// A SIB slot whose scale is known only once `expression` is.
    pub(crate) fn push_scaled_index_byte_with_scale_calculated_by_expression(
        &mut self,
        scale: u8,
        expression: Expression,
        index: u8,
        base: u8,
    )
        requires
            old(self).wf(),
            old(self).stream_len() + 1 <= usize::MAX,
        ensures
            final(self).flushed().len() > 0,
            handed_on(old(self).flushed(), old(self).buffered(), final(self).flushed().drop_last()),
            final(self).flushed().last() == (Statement::ScaledIndexByte { scale, expression, index, base }),
            final(self).is_flushed(),
            final(self).stream_len() == old(self).stream_len() + 1,
            final(self).wf(),
            final(self)@ == old(self)@.push(
                Emission::Slot(Statement::ScaledIndexByte { scale, expression, index, base }),
            ),
    {
        self.flush_bytes();
        let ghost mid = self.flushed();
        self.push_statement(Statement::ScaledIndexByte { scale, expression, index, base });
        proof {
            assert(self.flushed().drop_last() =~= mid);
        }
    }
}

/// `after` is `before` with the buffered bytes handed on as one `Bytes`
/// statement, or `before` itself when nothing was buffered.
pub open spec fn handed_on(before: Seq<Statement>, buffered: Seq<u8>, after: Seq<Statement>) -> bool {
    if buffered.len() == 0 {
        after == before
    } else {
        &&& after.len() == before.len() + 1
        &&& after.drop_last() == before
        &&& after.last() is Bytes
        &&& after.last()->Bytes_0@ == buffered
    }
}

pub open spec fn optional_byte(byte: Option<u8>) -> Seq<Emission> {
    match byte {
        Some(b) => seq![Emission::Byte(b)],
        None => Seq::empty(),
    }
}

fn statement_size(s: &Statement) -> (r: usize)
    requires
        statement_width(*s) <= usize::MAX,
    ensures
        r == statement_width(*s),
{
    match s {
        Statement::FunctionStart(_) => 0,
        Statement::Bytes(v) => v.len(),
        Statement::SignedExpression { size, .. } => size.in_bytes(),
        Statement::UnsignedExpression { size, .. } => size.in_bytes(),
        Statement::ScaledIndexByte { .. } => 1,
        Statement::FunctionEnd => 0,
    }
}

} // verus!
