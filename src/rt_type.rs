//! The runtime argument type: the record that every compiled function
//! receives first, its structural validator, and the per-function extractor
//! of the runtime fields.
use vstd::prelude::*;
use crate::ir::{IrType, TypeTable, sized, lemma_sized_extends};
use crate::builder::{Instr, Operand};
use crate::jit_context::JITContext;
use crate::layout::{RuntimeDataField, NUM_RUNTIME_DATA_FIELDS, field_at, field_index, layout_fields, Layout, layout_name, layout_name_exec, record_matches, field_matches, is_layout, matches_layout, LAYOUT_DEPTH};
use crate::providers::{RuntimeDataType, EnvDataType, MemoryRepresentationType, lemma_leaf_layout_depth, lemma_record_extends};

verus! {

/// The runtime argument type of one handle: the record
/// `{ RuntimeData*, Env*, MemoryRepresentation }` named `Runtime`, the
/// pointer type to it, and the types of the addresses of its first two
/// fields.
pub struct RuntimeType {
    pub rt_type: usize,
    pub rt_ptr_type: usize,
    pub data_slot_ptr_type: usize,
    pub env_slot_ptr_type: usize,
}

impl RuntimeType {
    /// The record at `rt_type` has exactly the three fields built from the
    /// given providers, in order, and the other indices are its pointer
    /// type and the address types of its two pointer fields.
    pub open spec fn wf(
        &self,
        t: Seq<IrType>,
        rt_data: RuntimeDataType,
        env: EnvDataType,
        memrep: MemoryRepresentationType,
    ) -> bool {
        &&& rt_data.wf(t)
        &&& env.wf(t)
        &&& memrep.wf(t)
        &&& self.rt_type < t.len()
        &&& self.rt_ptr_type < t.len()
        &&& self.data_slot_ptr_type < t.len()
        &&& self.env_slot_ptr_type < t.len()
        &&& t[self.rt_type as int] matches IrType::Record { name: Some(n), body: Some(b), packed }
        &&& !packed
        &&& n@ == layout_name(Layout::Runtime)
        &&& b@ == seq![rt_data.rt_data_ptr_type, env.env_ptr_type, memrep.mem_type]
        &&& is_layout(t, self.rt_type as int, Layout::Runtime)
        &&& t[self.rt_ptr_type as int] == (IrType::Pointer { pointee: self.rt_type })
        &&& t[self.data_slot_ptr_type as int] == (IrType::Pointer { pointee: rt_data.rt_data_ptr_type })
        &&& t[self.env_slot_ptr_type as int] == (IrType::Pointer { pointee: env.env_ptr_type })
    }

    /// Builds the runtime argument type in `tab` from the three providers
    /// it is made of.
    pub fn init(
        tab: &mut TypeTable,
        rt_data: &RuntimeDataType,
        env: &EnvDataType,
        memrep: &MemoryRepresentationType,
    ) -> (r: RuntimeType)
        requires
            old(tab).wf(),
            rt_data.wf(old(tab)@),
            env.wf(old(tab)@),
            memrep.wf(old(tab)@),
        ensures
            final(tab).wf(),
            final(tab).extends(old(tab)),
            r.wf(final(tab)@, *rt_data, *env, *memrep),
    {
        let ghost t0 = tab@;
        let fields = vec![rt_data.get_ptr_type(), env.get_ptr_type(), memrep.get_type()];
        let rt = tab.add_record(Some(layout_name_exec(Layout::Runtime)), Some(fields), false);
        let ghost t1 = tab@;
        proof {
            let mt = memrep.mem_type as int;
            lemma_record_extends(t0, t1, rt_data.rt_data_type as int, Layout::RuntimeData, LAYOUT_DEPTH as nat);
            lemma_record_extends(t0, t1, env.env_type as int, Layout::Env, LAYOUT_DEPTH as nat);
            lemma_record_extends(t0, t1, mt, Layout::MemRep, LAYOUT_DEPTH as nat);
            assert(t1[rt_data.rt_data_ptr_type as int] == t0[rt_data.rt_data_ptr_type as int]);
            assert(t1[env.env_ptr_type as int] == t0[env.env_ptr_type as int]);
            lemma_leaf_layout_depth(t1, rt_data.rt_data_type as int, Layout::RuntimeData, LAYOUT_DEPTH as nat, 1);
            lemma_leaf_layout_depth(t1, mt, Layout::MemRep, LAYOUT_DEPTH as nat, 1);
            assert(record_matches(t1, env.env_type as int, Layout::Env, 1));
            let b = seq![rt_data.rt_data_ptr_type, env.env_ptr_type, memrep.mem_type];
            assert(sized(t1, b[0] as int));
            assert(sized(t1, b[1] as int));
            assert(sized(t1, b[2] as int));
            assert(field_matches(t1, b[0] as int, crate::layout::FieldShape::PtrTo { layout: Layout::RuntimeData }, LAYOUT_DEPTH as nat));
            assert(field_matches(t1, b[1] as int, crate::layout::FieldShape::PtrTo { layout: Layout::Env }, LAYOUT_DEPTH as nat));
            assert(field_matches(t1, b[2] as int, crate::layout::FieldShape::Inline { layout: Layout::MemRep }, LAYOUT_DEPTH as nat));
            assert(sized(t1, rt as int));
            assert(is_layout(t1, rt as int, Layout::Runtime));
        }
        let rt_ptr = tab.pointer_to(rt);
        let data_slot = tab.pointer_to(rt_data.get_ptr_type());
        let env_slot = tab.pointer_to(env.get_ptr_type());
        let r = RuntimeType { rt_type: rt, rt_ptr_type: rt_ptr, data_slot_ptr_type: data_slot, env_slot_ptr_type: env_slot };
        proof {
            let t2 = tab@;
            assert(t2[rt as int] == t1[rt as int]);
            lemma_record_extends(t1, t2, rt as int, Layout::Runtime, LAYOUT_DEPTH as nat);
            lemma_record_extends(t0, t2, rt_data.rt_data_type as int, Layout::RuntimeData, LAYOUT_DEPTH as nat);
            lemma_record_extends(t0, t2, env.env_type as int, Layout::Env, LAYOUT_DEPTH as nat);
            lemma_record_extends(t0, t2, memrep.mem_type as int, Layout::MemRep, LAYOUT_DEPTH as nat);
            assert(t2[rt_data.rt_data_ptr_type as int] == t0[rt_data.rt_data_ptr_type as int]);
            assert(t2[env.env_ptr_type as int] == t0[env.env_ptr_type as int]);
            assert(t2[memrep.mem_ptr_type as int] == t0[memrep.mem_ptr_type as int]);
        }
        r
    }

    /// The runtime argument record.
    pub fn get_type(&self) -> (r: usize)
        ensures
            r == self.rt_type,
    {
        self.rt_type
    }

    /// The pointer type to the runtime argument record.
    pub fn get_ptr_type(&self) -> (r: usize)
        ensures
            r == self.rt_ptr_type,
    {
        self.rt_ptr_type
    }

    /// Whether the type at `id` is a runtime argument record: sized, not
    /// packed, not opaque, named `Runtime`, with exactly three fields: a
    /// pointer to a RuntimeData record, a pointer to an environment record,
    /// and a memory representation held by value. It never fails.
    pub fn is_runtime_type(tab: &TypeTable, id: usize) -> (r: bool)
        requires
            tab.wf(),
        ensures
            r == is_layout(tab@, id as int, Layout::Runtime),
    {
        matches_layout(tab, id, Layout::Runtime)
    }
}

/// Why the runtime fields could not be extracted: each is a broken
/// invariant between the compiler and its own calling convention.
#[derive(PartialEq, Eq, Structural, Clone, Copy, Debug)]
pub enum ExtractError {
    /// The cursor stands in no function.
    NoEnclosingFunction,
    /// The enclosing function has no parameters.
    NoParameters,
    /// The enclosing function's first parameter is not a pointer to the
    /// runtime argument type.
    RuntimeArgMismatch,
}

/// The field types of the record at `id`.
pub open spec fn record_fields(t: Seq<IrType>, id: int) -> Seq<usize> {
    match t[id] {
        IrType::Record { body: Some(b), .. } => b@,
        _ => Seq::empty(),
    }
}

/// Why extraction fails for a cursor in a function with parameter types
/// `function`, if it does.
pub open spec fn extract_failure(function: Option<Vec<usize>>, rt_ptr_type: usize) -> Option<ExtractError> {
    match function {
        None => Some(ExtractError::NoEnclosingFunction),
        Some(ps) => if ps@.len() == 0 {
            Some(ExtractError::NoParameters)
        } else if ps@[0] != rt_ptr_type {
            Some(ExtractError::RuntimeArgMismatch)
        } else {
            None
        },
    }
}

/// The number of instructions that one extraction emits.
pub const EXTRACTION_LEN: usize = 16;

/// The instruction that reads RuntimeData field `i` from the record value
/// loaded at position `n + 5`.
pub open spec fn extract_field_instr(n: int, i: int, field_types: Seq<usize>) -> Instr {
    Instr::ExtractValue { agg: Operand::Inst((n + 5) as usize), index: i as u32, ty: field_types[i], label: field_at(i) }
}

/// The code that extraction emits after `n` instructions: the address of
/// the RuntimeData pointer and its load, the address of the memory
/// representation (not loaded), the address of the environment pointer and
/// its load, the load of the RuntimeData record, and one read of each of its
/// fields, in record order.
pub open spec fn extraction_code(n: int, ctx: JITContext) -> Seq<Instr> {
    let ft = record_fields(ctx.m_types@, ctx.m_rt_data.rt_data_type as int);
    seq![
        Instr::StructGep { base: Operand::Param(0), index: 0, ty: ctx.m_rt.data_slot_ptr_type },
        Instr::Load { ptr: Operand::Inst(n as usize), ty: ctx.m_rt_data.rt_data_ptr_type },
        Instr::StructGep { base: Operand::Param(0), index: 2, ty: ctx.m_memrep.mem_ptr_type },
        Instr::StructGep { base: Operand::Param(0), index: 1, ty: ctx.m_rt.env_slot_ptr_type },
        Instr::Load { ptr: Operand::Inst((n + 3) as usize), ty: ctx.m_env.env_ptr_type },
        Instr::Load { ptr: Operand::Inst((n + 1) as usize), ty: ctx.m_rt_data.rt_data_type },
    ] + Seq::new(NUM_RUNTIME_DATA_FIELDS as nat, |i: int| extract_field_instr(n, i, ft))
}

/// The runtime values of the function being compiled, read once at its
/// start: the RuntimeData and environment pointers, the address of the
/// memory representation, and the ten RuntimeData fields in record order.
pub struct RuntimeTypeManager {
    pub m_data_ptr: Operand,
    pub m_mem_ptr: Operand,
    pub m_env_ptr: Operand,
    pub m_rt_data_elts: Vec<Operand>,
}

impl RuntimeTypeManager {
    /// The values that extraction names after `n` instructions.
    pub open spec fn names_extraction_at(&self, n: int) -> bool {
        &&& self.m_data_ptr == Operand::Inst((n + 1) as usize)
        &&& self.m_mem_ptr == Operand::Inst((n + 2) as usize)
        &&& self.m_env_ptr == Operand::Inst((n + 4) as usize)
        &&& self.m_rt_data_elts@ == Seq::new(NUM_RUNTIME_DATA_FIELDS as nat, |i: int| Operand::Inst((n + 6 + i) as usize))
    }

    pub open spec fn wf(&self) -> bool {
        self.m_rt_data_elts@.len() == NUM_RUNTIME_DATA_FIELDS
    }

    /// Extracts the runtime values at the cursor of `ctx`, which must stand
    /// in a function whose first parameter is a pointer to the runtime
    /// argument type. Where it does not, nothing is emitted and the error
    /// says why; otherwise `extraction_code` is appended.
    pub fn new(ctx: &mut JITContext) -> (r: Result<RuntimeTypeManager, ExtractError>)
        requires
            old(ctx).wf(),
            old(ctx).m_builder.code@.len() + EXTRACTION_LEN <= usize::MAX,
        ensures
            *final(ctx) == (JITContext { m_builder: final(ctx).m_builder, ..*old(ctx) }),
            final(ctx).m_builder.function == old(ctx).m_builder.function,
            match extract_failure(old(ctx).m_builder.function, old(ctx).m_rt.rt_ptr_type) {
                Some(e) => r == Err::<RuntimeTypeManager, ExtractError>(e) && final(ctx).m_builder == old(ctx).m_builder,
                None => r matches Ok(m) && m.wf() && m.names_extraction_at(old(ctx).m_builder.code@.len() as int)
                    && final(ctx).m_builder.code@ == old(ctx).m_builder.code@ + extraction_code(
                    old(ctx).m_builder.code@.len() as int,
                    *old(ctx),
                ),
            },
    {
        let rt_arg = match Self::get_runtime_ptr_with_builder(ctx) {
            Ok(p) => p,
            Err(e) => {
                return Err(e);
            },
        };
        let ghost n = ctx.m_builder.code@.len() as int;
        let ghost c0 = ctx.m_builder.code@;
        let ghost code = extraction_code(n, *ctx);
        let data_slot = ctx.m_builder.emit(Instr::StructGep { base: rt_arg, index: 0, ty: ctx.m_rt.data_slot_ptr_type });
        let data_p = ctx.m_builder.emit(Instr::Load { ptr: data_slot, ty: ctx.m_rt_data.rt_data_ptr_type });
        let mem_p = ctx.m_builder.emit(Instr::StructGep { base: rt_arg, index: 2, ty: ctx.m_memrep.mem_ptr_type });
        let env_slot = ctx.m_builder.emit(Instr::StructGep { base: rt_arg, index: 1, ty: ctx.m_rt.env_slot_ptr_type });
        let env_p = ctx.m_builder.emit(Instr::Load { ptr: env_slot, ty: ctx.m_env.env_ptr_type });
        let data = ctx.m_builder.emit(Instr::Load { ptr: data_p, ty: ctx.m_rt_data.rt_data_type });
        assert(ctx.m_builder.code@ == c0 + code.take(6));
        let rd = ctx.m_rt_data.rt_data_type;
        let ghost ft = record_fields(ctx.m_types@, rd as int);
        assert(ft.len() == NUM_RUNTIME_DATA_FIELDS) by {
            assert(layout_fields(Layout::RuntimeData).unwrap().len() == NUM_RUNTIME_DATA_FIELDS);
        }
        let mut elts: Vec<Operand> = Vec::new();
        let mut i: usize = 0;
        while i < NUM_RUNTIME_DATA_FIELDS
            invariant
                *ctx == (JITContext { m_builder: ctx.m_builder, ..*old(ctx) }),
                ctx.m_builder.function == old(ctx).m_builder.function,
                old(ctx).wf(),
                n == c0.len(),
                n + EXTRACTION_LEN <= usize::MAX,
                code == extraction_code(n, *old(ctx)),
                rd == ctx.m_rt_data.rt_data_type,
                ft == record_fields(ctx.m_types@, rd as int),
                ft.len() == NUM_RUNTIME_DATA_FIELDS,
                data == Operand::Inst((n + 5) as usize),
                0 <= i <= NUM_RUNTIME_DATA_FIELDS,
                ctx.m_builder.code@ == c0 + code.take(6 + i),
                elts@ == Seq::new(i as nat, |k: int| Operand::Inst((n + 6 + k) as usize)),
            decreases NUM_RUNTIME_DATA_FIELDS - i,
        {
            let f = RuntimeDataField::from_index(i);
            let idx = f.to_index();
            proof {
                lemma_field_index_table(f);
            }
            let ty = ctx.m_types.field_type(rd, idx);
            let v = ctx.m_builder.emit(Instr::ExtractValue { agg: data, index: idx as u32, ty, label: f });
            assert(code[6 + i] == extract_field_instr(n, i as int, ft));
            assert(code.take(6 + i + 1) == code.take(6 + i).push(code[6 + i]));
            elts.push(v);
            assert(elts@ == Seq::new((i + 1) as nat, |k: int| Operand::Inst((n + 6 + k) as usize)));
            i += 1;
        }
        assert(code.take(EXTRACTION_LEN as int) == code);
        Ok(RuntimeTypeManager { m_data_ptr: data_p, m_mem_ptr: mem_p, m_env_ptr: env_p, m_rt_data_elts: elts })
    }

    /// The runtime argument of the function that the cursor of `ctx`
    /// stands in: its first parameter, which must point to the runtime
    /// argument type.
    fn get_runtime_ptr_with_builder(ctx: &JITContext) -> (r: Result<Operand, ExtractError>)
        ensures
            match extract_failure(ctx.m_builder.function, ctx.m_rt.rt_ptr_type) {
                Some(e) => r == Err::<Operand, ExtractError>(e),
                None => r == Ok::<Operand, ExtractError>(Operand::Param(0)),
            },
    {
        let first = match &ctx.m_builder.function {
            None => {
                return Err(ExtractError::NoEnclosingFunction);
            },
            Some(ps) => {
                if ps.len() == 0 {
                    return Err(ExtractError::NoParameters);
                }
                ps[0]
            },
        };
        if first != ctx.m_rt.rt_ptr_type {
            return Err(ExtractError::RuntimeArgMismatch);
        }
        Ok(Operand::Param(0))
    }

    pub fn get_env_ptr(&self) -> (r: Operand)
        ensures
            r == self.m_env_ptr,
    {
        self.m_env_ptr
    }

    pub fn get_data_ptr(&self) -> (r: Operand)
        ensures
            r == self.m_data_ptr,
    {
        self.m_data_ptr
    }

    pub fn get_mem_ptr(&self) -> (r: Operand)
        ensures
            r == self.m_mem_ptr,
    {
        self.m_mem_ptr
    }

    /// The value of RuntimeData field `f`.
    pub fn get_field(&self, f: RuntimeDataField) -> (r: Operand)
        requires
            self.wf(),
        ensures
            r == self.m_rt_data_elts@[field_index(f) as int],
    {
        self.m_rt_data_elts[f.to_index()]
    }

    pub fn get_address(&self) -> (r: Operand)
        requires
            self.wf(),
        ensures
            r == self.m_rt_data_elts@[field_index(RuntimeDataField::Address) as int],
    {
        self.get_field(RuntimeDataField::Address)
    }

    pub fn get_sender(&self) -> (r: Operand)
        requires
            self.wf(),
        ensures
            r == self.m_rt_data_elts@[field_index(RuntimeDataField::Sender) as int],
    {
        self.get_field(RuntimeDataField::Sender)
    }

    pub fn get_value(&self) -> (r: Operand)
        requires
            self.wf(),
        ensures
            r == self.m_rt_data_elts@[field_index(RuntimeDataField::Value) as int],
    {
        self.get_field(RuntimeDataField::Value)
    }

    pub fn get_depth(&self) -> (r: Operand)
        requires
            self.wf(),
        ensures
            r == self.m_rt_data_elts@[field_index(RuntimeDataField::Depth) as int],
    {
        self.get_field(RuntimeDataField::Depth)
    }
}

/// A runtime argument type built from well-formed providers passes the
/// structural validator.
pub proof fn lemma_built_runtime_type_is_valid(
    t: Seq<IrType>,
    rt: RuntimeType,
    rt_data: RuntimeDataType,
    env: EnvDataType,
    memrep: MemoryRepresentationType,
)
    requires
        rt.wf(t, rt_data, env, memrep),
    ensures
        is_layout(t, rt.rt_type as int, Layout::Runtime),
{
}

/// A runtime argument type has exactly three fields: a pointer to the
/// RuntimeData record, a pointer to the environment record, and the memory
/// representation by value, in that order.
pub proof fn lemma_runtime_type_fields(
    t: Seq<IrType>,
    rt: RuntimeType,
    rt_data: RuntimeDataType,
    env: EnvDataType,
    memrep: MemoryRepresentationType,
)
    requires
        rt.wf(t, rt_data, env, memrep),
    ensures
        record_fields(t, rt.rt_type as int).len() == 3,
        t[record_fields(t, rt.rt_type as int)[0] as int] == (IrType::Pointer { pointee: rt_data.rt_data_type }),
        t[record_fields(t, rt.rt_type as int)[1] as int] == (IrType::Pointer { pointee: env.env_type }),
        record_fields(t, rt.rt_type as int)[2] == memrep.mem_type,
        is_layout(t, rt_data.rt_data_type as int, Layout::RuntimeData),
        is_layout(t, env.env_type as int, Layout::Env),
        is_layout(t, memrep.mem_type as int, Layout::MemRep),
{
}

/// The validator refuses an opaque record, a packed record, a record with
/// other than three fields, a record without the name `Runtime`, a record
/// whose first field is not a pointer, and one whose first field points to
/// something that is not a RuntimeData record; and anything but a record.
pub proof fn lemma_malformed_is_not_runtime_type(t: Seq<IrType>, id: int)
    requires
        0 <= id < t.len(),
    ensures
        !(t[id] is Record) ==> !is_layout(t, id, Layout::Runtime),
        t[id] matches IrType::Record { body: None, .. } ==> !is_layout(t, id, Layout::Runtime),
        t[id] matches IrType::Record { packed: true, .. } ==> !is_layout(t, id, Layout::Runtime),
        t[id] matches IrType::Record { body: Some(b), .. } && b@.len() != 3 ==> !is_layout(t, id, Layout::Runtime),
        t[id] matches IrType::Record { name: None, .. } ==> !is_layout(t, id, Layout::Runtime),
        t[id] matches IrType::Record { name: Some(n), .. } && n@ != "Runtime"@ ==> !is_layout(t, id, Layout::Runtime),
        t[id] matches IrType::Record { body: Some(b), .. } && b@.len() > 0 && 0 <= b@[0] < t.len() && !(t[b@[0] as int] is Pointer)
            ==> !is_layout(t, id, Layout::Runtime),
        t[id] matches IrType::Record { body: Some(b), .. } && b@.len() > 0 && 0 <= b@[0] < t.len()
            && (t[b@[0] as int] matches IrType::Pointer { pointee } && !is_layout(t, pointee as int, Layout::RuntimeData))
            ==> !is_layout(t, id, Layout::Runtime),
{
    if let IrType::Record { body: Some(b), .. } = t[id] {
        if b@.len() > 0 && 0 <= b@[0] < t.len() {
            if let IrType::Pointer { pointee } = t[b@[0] as int] {
                crate::providers::lemma_leaf_layout_depth(t, pointee as int, Layout::RuntimeData, 1, LAYOUT_DEPTH as nat);
                if is_layout(t, id, Layout::Runtime) {
                    assert(field_matches(t, b@[0] as int, crate::layout::FieldShape::PtrTo { layout: Layout::RuntimeData }, LAYOUT_DEPTH as nat));
                }
            }
        }
    }
}

/// After a successful extraction, the value kept for each RuntimeData field
/// is the result of reading that field's own position of the record, with
/// the type that the record has there, labelled with the field's name.
pub proof fn lemma_extracted_field_reads_its_index(
    ctx: JITContext,
    code: Seq<Instr>,
    n: int,
    m: RuntimeTypeManager,
    f: RuntimeDataField,
)
    requires
        ctx.wf(),
        0 <= n,
        n + EXTRACTION_LEN <= usize::MAX,
        code.len() == n + EXTRACTION_LEN,
        code.subrange(n, n + EXTRACTION_LEN as int) == extraction_code(n, ctx),
        m.names_extraction_at(n),
    ensures
        m.m_rt_data_elts@[field_index(f) as int] == Operand::Inst((n + 6 + field_index(f)) as usize),
        code[n + 6 + field_index(f)] == (Instr::ExtractValue {
            agg: Operand::Inst((n + 5) as usize),
            index: field_index(f) as u32,
            ty: record_fields(ctx.m_types@, ctx.m_rt_data.rt_data_type as int)[field_index(f) as int],
            label: f,
        }),
        code[n + 5] == (Instr::Load { ptr: m.m_data_ptr, ty: ctx.m_rt_data.rt_data_type }),
{
    lemma_field_index_table(f);
    assert(code[n + 6 + field_index(f)] == code.subrange(n, n + EXTRACTION_LEN as int)[6 + field_index(f) as int]);
    assert(code[n + 5] == code.subrange(n, n + EXTRACTION_LEN as int)[5]);
}

/// The types that extraction relies on hold in every well-formed context:
/// the runtime argument points to the runtime record; the address of its
/// first field points to a RuntimeData pointer, that of its second to an
/// environment pointer, and that of its third is a pointer to the memory
/// representation; the RuntimeData pointer points to a RuntimeData record,
/// whose field at each position has the shape of the field named there.
pub proof fn lemma_extraction_types(ctx: JITContext)
    requires
        ctx.wf(),
    ensures
        ({
            let t = ctx.m_types@;
            let rt_fields = record_fields(t, ctx.m_rt.rt_type as int);
            let rd_fields = record_fields(t, ctx.m_rt_data.rt_data_type as int);
            &&& t[ctx.m_rt.rt_ptr_type as int] == (IrType::Pointer { pointee: ctx.m_rt.rt_type })
            &&& t[ctx.m_rt.data_slot_ptr_type as int] == (IrType::Pointer { pointee: rt_fields[0] })
            &&& rt_fields[0] == ctx.m_rt_data.rt_data_ptr_type
            &&& t[ctx.m_memrep.mem_ptr_type as int] == (IrType::Pointer { pointee: rt_fields[2] })
            &&& t[ctx.m_rt.env_slot_ptr_type as int] == (IrType::Pointer { pointee: rt_fields[1] })
            &&& rt_fields[1] == ctx.m_env.env_ptr_type
            &&& t[ctx.m_rt_data.rt_data_ptr_type as int] == (IrType::Pointer { pointee: ctx.m_rt_data.rt_data_type })
            &&& rd_fields.len() == NUM_RUNTIME_DATA_FIELDS
            &&& forall|i: int| 0 <= i < NUM_RUNTIME_DATA_FIELDS ==>
                field_matches(t, #[trigger] rd_fields[i] as int, crate::layout::field_shape(field_at(i)), LAYOUT_DEPTH as nat)
        }),
{
    let t = ctx.m_types@;
    let rd_fields = record_fields(t, ctx.m_rt_data.rt_data_type as int);
    let shapes = layout_fields(Layout::RuntimeData).unwrap();
    assert forall|i: int| 0 <= i < NUM_RUNTIME_DATA_FIELDS implies
        field_matches(t, #[trigger] rd_fields[i] as int, crate::layout::field_shape(field_at(i)), LAYOUT_DEPTH as nat) by {
        assert(shapes[i] == crate::layout::field_shape(field_at(i)));
    }
}

/// The name-to-index table and the RuntimeData layout agree: each tracked
/// field has a position below ten, that position names it back, and the
/// layout's field at that position has the field's shape.
pub proof fn lemma_field_index_table(f: RuntimeDataField)
    ensures
        field_index(f) < NUM_RUNTIME_DATA_FIELDS,
        field_at(field_index(f) as int) == f,
        layout_fields(Layout::RuntimeData).unwrap()[field_index(f) as int] == crate::layout::field_shape(f),
{
}

} // verus!
