//! The type providers: each builds one structural type in a handle's table
//! and keeps its index, so that every later query reads the same type.
use vstd::prelude::*;
use crate::ir::{IrType, TypeTable, sized, lemma_sized_extends};
use crate::layout::{Layout, FieldShape, layout_fields, layout_fields_exec, layout_name_exec, field_shape, field_at, record_matches, field_matches, is_layout, matches_layout, LAYOUT_DEPTH};

verus! {

/// Whether `l` holds only integer and byte-pointer fields.
pub open spec fn is_leaf_layout(l: Layout) -> bool {
    l == Layout::RuntimeData || l == Layout::MemRep
}

/// A leaf layout matches at every depth alike.
pub proof fn lemma_leaf_layout_depth(t: Seq<IrType>, id: int, l: Layout, d1: nat, d2: nat)
    requires
        is_leaf_layout(l),
    ensures
        record_matches(t, id, l, d1) == record_matches(t, id, l, d2),
{
    if let Some(shapes) = layout_fields(l) {
        if let IrType::Record { body: Some(b), .. } = t[id] {
            assert forall|j: int| 0 <= j < shapes.len() && j < b@.len() implies field_matches(t, #[trigger] b@[j] as int, shapes[j], d1)
                == field_matches(t, b@[j] as int, shapes[j], d2) by {
                if l == Layout::RuntimeData {
                    assert(shapes[j] == field_shape(field_at(j)));
                }
            }
        }
    }
}

/// Appending types keeps every record match.
pub proof fn lemma_record_extends(t1: Seq<IrType>, t2: Seq<IrType>, id: int, l: Layout, depth: nat)
    requires
        t1.len() <= t2.len(),
        forall|i: int| 0 <= i < t1.len() ==> #[trigger] t2[i] == t1[i],
        record_matches(t1, id, l, depth),
    ensures
        record_matches(t2, id, l, depth),
    decreases depth, 1nat,
{
    assert(t2[id] == t1[id]);
    if let Some(shapes) = layout_fields(l) {
        lemma_sized_extends(t1, t2, id);
        if let IrType::Record { body: Some(b), .. } = t1[id] {
            assert forall|j: int| 0 <= j < shapes.len() implies field_matches(t2, #[trigger] b@[j] as int, shapes[j], depth) by {
                lemma_field_extends(t1, t2, b@[j] as int, shapes[j], depth);
            }
        }
    }
}

/// Appending types keeps every field match.
pub proof fn lemma_field_extends(t1: Seq<IrType>, t2: Seq<IrType>, id: int, s: FieldShape, depth: nat)
    requires
        t1.len() <= t2.len(),
        forall|i: int| 0 <= i < t1.len() ==> #[trigger] t2[i] == t1[i],
        field_matches(t1, id, s, depth),
    ensures
        field_matches(t2, id, s, depth),
    decreases depth, 0nat,
{
    assert(t2[id] == t1[id]);
    match s {
        FieldShape::PtrToInt { .. } => {
            if let IrType::Pointer { pointee } = t1[id] {
                assert(t2[pointee as int] == t1[pointee as int]);
            }
        },
        FieldShape::PtrTo { layout } => {
            if let IrType::Pointer { pointee } = t1[id] {
                lemma_record_extends(t1, t2, pointee as int, layout, (depth - 1) as nat);
            }
        },
        FieldShape::Inline { layout } => {
            lemma_record_extends(t1, t2, id, layout, (depth - 1) as nat);
        },
        _ => {},
    }
}

/// Adds the type of a field of shape `s` (an integer or a byte pointer).
fn realize_leaf(tab: &mut TypeTable, s: FieldShape) -> (r: usize)
    requires
        old(tab).wf(),
        s matches FieldShape::Int { bits } ==> bits > 0,
        s matches FieldShape::PtrToInt { bits } ==> bits > 0,
        s is Int || s is PtrToInt,
    ensures
        final(tab).wf(),
        final(tab).extends(old(tab)),
        r < final(tab)@.len(),
        field_matches(final(tab)@, r as int, s, 0),
        sized(final(tab)@, r as int),
{
    match s {
        FieldShape::PtrToInt { bits } => {
            let i = tab.int_type(bits);
            let r = tab.pointer_to(i);
            r
        },
        FieldShape::Int { bits } => tab.int_type(bits),
        _ => 0,
    }
}

/// Adds a record of the leaf layout `l`, with the layout's name and fields.
fn build_leaf_record(tab: &mut TypeTable, l: Layout) -> (r: usize)
    requires
        old(tab).wf(),
        is_leaf_layout(l),
    ensures
        final(tab).wf(),
        final(tab).extends(old(tab)),
        r < final(tab)@.len(),
        is_layout(final(tab)@, r as int, l),
{
    let shapes = match layout_fields_exec(l) {
        Some(v) => v,
        None => Vec::new(),
    };
    let mut fields: Vec<usize> = Vec::new();
    let mut j: usize = 0;
    while j < shapes.len()
        invariant
            tab.wf(),
            tab.extends(old(tab)),
            layout_fields(l) == Some(shapes@),
            is_leaf_layout(l),
            0 <= j <= shapes@.len(),
            fields@.len() == j,
            forall|k: int| 0 <= k < j ==> #[trigger] fields@[k] < tab@.len(),
            forall|k: int| 0 <= k < j ==> field_matches(tab@, #[trigger] fields@[k] as int, shapes@[k], 0),
            forall|k: int| 0 <= k < j ==> sized(tab@, #[trigger] fields@[k] as int),
        decreases shapes.len() - j,
    {
        let ghost before = tab@;
        proof {
            if l == Layout::RuntimeData {
                assert(shapes@[j as int] == field_shape(field_at(j as int)));
            }
        }
        let f = realize_leaf(tab, shapes[j]);
        proof {
            assert forall|k: int| 0 <= k < j implies field_matches(tab@, #[trigger] fields@[k] as int, shapes@[k], 0) by {
                lemma_field_extends(before, tab@, fields@[k] as int, shapes@[k], 0);
            }
            assert forall|k: int| 0 <= k < j implies sized(tab@, #[trigger] fields@[k] as int) by {
                lemma_sized_extends(before, tab@, fields@[k] as int);
            }
        }
        fields.push(f);
        j += 1;
    }
    let ghost before = tab@;
    let ghost fs = fields@;
    let r = tab.add_record(Some(layout_name_exec(l)), Some(fields), false);
    proof {
        assert forall|k: int| 0 <= k < j implies field_matches(tab@, #[trigger] fs[k] as int, shapes@[k], 0) by {
            lemma_field_extends(before, tab@, fs[k] as int, shapes@[k], 0);
        }
        assert forall|k: int| 0 <= k < j implies sized(tab@, #[trigger] fs[k] as int) by {
            lemma_sized_extends(before, tab@, fs[k] as int);
        }
        assert(sized(tab@, r as int));
        assert(record_matches(tab@, r as int, l, 0));
        lemma_leaf_layout_depth(tab@, r as int, l, 0, LAYOUT_DEPTH as nat);
    }
    r
}

/// The type at `ty` is a record of layout `l`, and the type at `ptr` points
/// to it.
pub open spec fn provides(t: Seq<IrType>, ty: usize, ptr: usize, l: Layout) -> bool {
    &&& ty < t.len()
    &&& ptr < t.len()
    &&& is_layout(t, ty as int, l)
    &&& t[ptr as int] == (IrType::Pointer { pointee: ty })
}

/// Appending types keeps what a provider provides.
pub proof fn lemma_provides_extends(t1: Seq<IrType>, t2: Seq<IrType>, ty: usize, ptr: usize, l: Layout)
    requires
        t1.len() <= t2.len(),
        forall|i: int| 0 <= i < t1.len() ==> #[trigger] t2[i] == t1[i],
        provides(t1, ty, ptr, l),
    ensures
        provides(t2, ty, ptr, l),
{
    assert(t2[ptr as int] == t1[ptr as int]);
    lemma_record_extends(t1, t2, ty as int, l, LAYOUT_DEPTH as nat);
}

/// Builds a record of the leaf layout `l` and the pointer type to it.
fn build_leaf_provider(tab: &mut TypeTable, l: Layout) -> (r: (usize, usize))
    requires
        old(tab).wf(),
        is_leaf_layout(l),
    ensures
        final(tab).wf(),
        final(tab).extends(old(tab)),
        provides(final(tab)@, r.0, r.1, l),
{
    let ty = build_leaf_record(tab, l);
    let ghost before = tab@;
    let ptr = tab.pointer_to(ty);
    proof {
        lemma_record_extends(before, tab@, ty as int, l, LAYOUT_DEPTH as nat);
    }
    (ty, ptr)
}

/// The provider of the RuntimeData record: the per-call inputs.
pub struct RuntimeDataType {
    pub rt_data_type: usize,
    pub rt_data_ptr_type: usize,
}

impl RuntimeDataType {
    pub open spec fn wf(&self, t: Seq<IrType>) -> bool {
        provides(t, self.rt_data_type, self.rt_data_ptr_type, Layout::RuntimeData)
    }

    /// Builds the RuntimeData record in `tab`.
    pub fn new(tab: &mut TypeTable) -> (r: RuntimeDataType)
        requires
            old(tab).wf(),
        ensures
            final(tab).wf(),
            final(tab).extends(old(tab)),
            r.wf(final(tab)@),
    {
        let (ty, ptr) = build_leaf_provider(tab, Layout::RuntimeData);
        RuntimeDataType { rt_data_type: ty, rt_data_ptr_type: ptr }
    }

    pub fn get_type(&self) -> (r: usize)
        ensures
            r == self.rt_data_type,
    {
        self.rt_data_type
    }

    pub fn get_ptr_type(&self) -> (r: usize)
        ensures
            r == self.rt_data_ptr_type,
    {
        self.rt_data_ptr_type
    }

    /// Whether the type at `id` has the RuntimeData layout.
    pub fn is_rt_data_type(tab: &TypeTable, id: usize) -> (r: bool)
        requires
            tab.wf(),
        ensures
            r == is_layout(tab@, id as int, Layout::RuntimeData),
    {
        matches_layout(tab, id, Layout::RuntimeData)
    }
}

/// The provider of the environment record, whose contents the host owns:
/// code only passes a pointer to it along.
pub struct EnvDataType {
    pub env_type: usize,
    pub env_ptr_type: usize,
}

impl EnvDataType {
    pub open spec fn wf(&self, t: Seq<IrType>) -> bool {
        provides(t, self.env_type, self.env_ptr_type, Layout::Env)
    }

    /// Builds the opaque environment record in `tab`.
    pub fn new(tab: &mut TypeTable) -> (r: EnvDataType)
        requires
            old(tab).wf(),
        ensures
            final(tab).wf(),
            final(tab).extends(old(tab)),
            r.wf(final(tab)@),
    {
        let ty = tab.add_record(Some(layout_name_exec(Layout::Env)), None, false);
        let ghost before = tab@;
        assert(record_matches(before, ty as int, Layout::Env, LAYOUT_DEPTH as nat));
        let ptr = tab.pointer_to(ty);
        proof {
            lemma_record_extends(before, tab@, ty as int, Layout::Env, LAYOUT_DEPTH as nat);
        }
        EnvDataType { env_type: ty, env_ptr_type: ptr }
    }

    pub fn get_type(&self) -> (r: usize)
        ensures
            r == self.env_type,
    {
        self.env_type
    }

    pub fn get_ptr_type(&self) -> (r: usize)
        ensures
            r == self.env_ptr_type,
    {
        self.env_ptr_type
    }

    /// Whether the type at `id` is the environment record.
    pub fn is_env_data_type(tab: &TypeTable, id: usize) -> (r: bool)
        requires
            tab.wf(),
        ensures
            r == is_layout(tab@, id as int, Layout::Env),
    {
        matches_layout(tab, id, Layout::Env)
    }
}

/// The provider of the memory representation: a byte pointer, a size and a
/// capacity, held in line.
pub struct MemoryRepresentationType {
    pub mem_type: usize,
    pub mem_ptr_type: usize,
}

impl MemoryRepresentationType {
    pub open spec fn wf(&self, t: Seq<IrType>) -> bool {
        provides(t, self.mem_type, self.mem_ptr_type, Layout::MemRep)
    }

    /// Builds the memory representation record in `tab`.
    pub fn new(tab: &mut TypeTable) -> (r: MemoryRepresentationType)
        requires
            old(tab).wf(),
        ensures
            final(tab).wf(),
            final(tab).extends(old(tab)),
            r.wf(final(tab)@),
    {
        let (ty, ptr) = build_leaf_provider(tab, Layout::MemRep);
        MemoryRepresentationType { mem_type: ty, mem_ptr_type: ptr }
    }

    pub fn get_type(&self) -> (r: usize)
        ensures
            r == self.mem_type,
    {
        self.mem_type
    }

    pub fn get_ptr_type(&self) -> (r: usize)
        ensures
            r == self.mem_ptr_type,
    {
        self.mem_ptr_type
    }

    /// Whether the type at `id` has the memory representation layout.
    pub fn is_mem_representation_type(tab: &TypeTable, id: usize) -> (r: bool)
        requires
            tab.wf(),
        ensures
            r == is_layout(tab@, id as int, Layout::MemRep),
    {
        matches_layout(tab, id, Layout::MemRep)
    }
}

/// The scalar types of the machine: the 256-bit word, 64-bit sizes, bytes,
/// booleans, and pointers to bytes and to words.
pub struct EvmTypes {
    pub word: usize,
    pub size: usize,
    pub byte: usize,
    pub boolean: usize,
    pub byte_ptr: usize,
    pub word_ptr: usize,
}

impl EvmTypes {
    pub open spec fn wf(&self, t: Seq<IrType>) -> bool {
        &&& self.word < t.len() && t[self.word as int] == (IrType::Int { bits: 256 })
        &&& self.size < t.len() && t[self.size as int] == (IrType::Int { bits: 64 })
        &&& self.byte < t.len() && t[self.byte as int] == (IrType::Int { bits: 8 })
        &&& self.boolean < t.len() && t[self.boolean as int] == (IrType::Int { bits: 1 })
        &&& self.byte_ptr < t.len() && t[self.byte_ptr as int] == (IrType::Pointer { pointee: self.byte })
        &&& self.word_ptr < t.len() && t[self.word_ptr as int] == (IrType::Pointer { pointee: self.word })
    }

    /// Adds the scalar types to `tab`.
    pub fn new(tab: &mut TypeTable) -> (r: EvmTypes)
        requires
            old(tab).wf(),
        ensures
            final(tab).wf(),
            final(tab).extends(old(tab)),
            r.wf(final(tab)@),
    {
        let word = tab.int_type(256);
        let size = tab.int_type(64);
        let byte = tab.int_type(8);
        let boolean = tab.int_type(1);
        let byte_ptr = tab.pointer_to(byte);
        let word_ptr = tab.pointer_to(word);
        EvmTypes { word, size, byte, boolean, byte_ptr, word_ptr }
    }
}

/// A constant of an integer type.
#[derive(PartialEq, Eq, Structural, Clone, Copy, Debug)]
pub struct Constant {
    pub ty: usize,
    pub value: u64,
}

/// The constants that compiled code uses most: zero and one as words and
/// as sizes.
pub struct EvmConstants {
    pub word_zero: Constant,
    pub word_one: Constant,
    pub size_zero: Constant,
    pub size_one: Constant,
}

impl EvmConstants {
    pub open spec fn wf(&self, types: EvmTypes) -> bool {
        &&& self.word_zero == (Constant { ty: types.word, value: 0 })
        &&& self.word_one == (Constant { ty: types.word, value: 1 })
        &&& self.size_zero == (Constant { ty: types.size, value: 0 })
        &&& self.size_one == (Constant { ty: types.size, value: 1 })
    }

    pub fn new(types: &EvmTypes) -> (r: EvmConstants)
        ensures
            r.wf(*types),
    {
        EvmConstants {
            word_zero: Constant { ty: types.word, value: 0 },
            word_one: Constant { ty: types.word, value: 1 },
            size_zero: Constant { ty: types.size, value: 0 },
            size_one: Constant { ty: types.size, value: 1 },
        }
    }
}

/// An attribute of a compiled function or of one of its parameters.
#[derive(PartialEq, Eq, Structural, Clone, Copy, Debug)]
pub enum Attribute {
    NoUnwind,
    NoAlias,
    NoCapture,
    NonNull,
}

/// The attribute sets of compiled functions: those of the function itself
/// and those of its runtime argument.
pub struct LLVMAttributeFactory {
    pub function_attrs: Vec<Attribute>,
    pub runtime_arg_attrs: Vec<Attribute>,
}

impl LLVMAttributeFactory {
    /// A compiled function does not unwind; its runtime argument is a
    /// non-null pointer that nothing else aliases and that does not escape.
    pub fn new() -> (r: LLVMAttributeFactory)
        ensures
            r.function_attrs@ == seq![Attribute::NoUnwind],
            r.runtime_arg_attrs@ == seq![Attribute::NoAlias, Attribute::NoCapture, Attribute::NonNull],
    {
        LLVMAttributeFactory {
            function_attrs: vec![Attribute::NoUnwind],
            runtime_arg_attrs: vec![Attribute::NoAlias, Attribute::NoCapture, Attribute::NonNull],
        }
    }
}

/// The signatures of the host's storage callbacks: each takes the
/// environment pointer, a pointer to the key word and a pointer to the value
/// word, and returns nothing.
pub struct CallbackTypes {
    pub storage_load: usize,
    pub storage_store: usize,
}

impl CallbackTypes {
    pub open spec fn wf(&self, t: Seq<IrType>, types: EvmTypes, env: EnvDataType) -> bool {
        &&& self.storage_load < t.len()
        &&& self.storage_store < t.len()
        &&& t[self.storage_load as int] matches IrType::Function { ret: None, params }
            && params@ == seq![env.env_ptr_type, types.word_ptr, types.word_ptr]
        &&& t[self.storage_store as int] matches IrType::Function { ret: None, params }
            && params@ == seq![env.env_ptr_type, types.word_ptr, types.word_ptr]
    }

    /// Adds the callback signatures to `tab`.
    pub fn new(tab: &mut TypeTable, types: &EvmTypes, env: &EnvDataType) -> (r: CallbackTypes)
        requires
            old(tab).wf(),
            types.wf(old(tab)@),
            env.wf(old(tab)@),
        ensures
            final(tab).wf(),
            final(tab).extends(old(tab)),
            r.wf(final(tab)@, *types, *env),
    {
        let load = tab.add_function(None, vec![env.env_ptr_type, types.word_ptr, types.word_ptr]);
        let store = tab.add_function(None, vec![env.env_ptr_type, types.word_ptr, types.word_ptr]);
        CallbackTypes { storage_load: load, storage_store: store }
    }
}

} // verus!
