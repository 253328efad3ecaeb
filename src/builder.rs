//! A model of the code-generation cursor: the parameter types of the
//! function it stands in, and the instructions emitted there so far.
use vstd::prelude::*;
use crate::layout::RuntimeDataField;

verus! {

/// A value in the function being compiled.
#[derive(PartialEq, Eq, Structural, Clone, Copy, Debug)]
pub enum Operand {
    /// The function's parameter at this position.
    Param(usize),
    /// The result of the instruction at this position.
    Inst(usize),
}

/// One emitted instruction; `ty` is the type of its result.
#[derive(PartialEq, Eq, Structural, Clone, Copy, Debug)]
pub enum Instr {
    /// The address of field `index` of the record that `base` points to.
    StructGep { base: Operand, index: u32, ty: usize },
    /// The value that `ptr` points to.
    Load { ptr: Operand, ty: usize },
    /// Field `index` of the record value `agg`, labelled for diagnostics.
    ExtractValue { agg: Operand, index: u32, ty: usize, label: RuntimeDataField },
}

/// The insertion cursor.
pub struct Builder {
    /// The parameter types of the function that the cursor stands in, or
    /// `None` where it stands in none.
    pub function: Option<Vec<usize>>,
    /// The instructions emitted in that function, in order.
    pub code: Vec<Instr>,
}

impl Builder {
    /// A cursor that stands in no function.
    pub fn new() -> (r: Builder)
        ensures
            r.function is None,
            r.code@.len() == 0,
    {
        Builder { function: None, code: Vec::new() }
    }

    /// Moves the cursor to the start of a new, empty function with the given
    /// parameter types.
    pub fn position_at_function_start(&mut self, params: Vec<usize>)
        ensures
            final(self).function == Some(params),
            final(self).code@.len() == 0,
    {
        self.function = Some(params);
        self.code = Vec::new();
    }

    /// The number of instructions emitted.
    pub fn code_len(&self) -> (r: usize)
        ensures
            r == self.code@.len(),
    {
        self.code.len()
    }

    /// The instruction at position `i`.
    pub fn instr(&self, i: usize) -> (r: Instr)
        requires
            i < self.code@.len(),
        ensures
            r == self.code@[i as int],
    {
        self.code[i]
    }

    /// Appends `ins` and names its result.
    pub fn emit(&mut self, ins: Instr) -> (r: Operand)
        requires
            old(self).code@.len() < usize::MAX,
        ensures
            final(self).function == old(self).function,
            final(self).code@ == old(self).code@.push(ins),
            r == Operand::Inst(old(self).code@.len() as usize),
    {
        let n = self.code.len();
        self.code.push(ins);
        Operand::Inst(n)
    }
}

} // verus!
