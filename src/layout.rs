//! The record layouts shared between compiled code and the host runtime, and
//! one generic routine that checks a type of the table against a layout.
//!
//! A layout is a record name and an ordered list of field shapes. Every
//! structural validator of the crate is this one routine applied to one
//! layout.
use vstd::prelude::*;
use vstd::string::StringExecFns;
use crate::ir::{IrType, TypeTable, sized};

verus! {

/// The validated record layouts.
#[derive(PartialEq, Eq, Structural, Clone, Copy, Debug)]
pub enum Layout {
    /// The per-call inputs that the host hands to compiled code.
    RuntimeData,
    /// The host's environment record; its contents belong to the host.
    Env,
    /// The in-line value that stands for the machine's working memory.
    MemRep,
    /// The argument that every compiled function receives first.
    Runtime,
}

/// What one field of a layout must be.
#[derive(PartialEq, Eq, Structural, Clone, Copy, Debug)]
pub enum FieldShape {
    /// An integer of this width.
    Int { bits: u32 },
    /// A pointer to an integer of this width.
    PtrToInt { bits: u32 },
    /// A pointer to a record of this layout.
    PtrTo { layout: Layout },
    /// A record of this layout, held by value.
    Inline { layout: Layout },
}

/// The fields of the RuntimeData record that compiled code reads, in the
/// order of the record.
#[derive(PartialEq, Eq, Structural, Clone, Copy, Debug)]
pub enum RuntimeDataField {
    Gas,
    GasPrice,
    CallData,
    CallDataSize,
    Value,
    Code,
    CodeSize,
    Address,
    Sender,
    Depth,
}

/// The number of fields of the RuntimeData record.
pub const NUM_RUNTIME_DATA_FIELDS: usize = 10;

/// The position of `f` in the RuntimeData record.
pub open spec fn field_index(f: RuntimeDataField) -> nat {
    match f {
        RuntimeDataField::Gas => 0,
        RuntimeDataField::GasPrice => 1,
        RuntimeDataField::CallData => 2,
        RuntimeDataField::CallDataSize => 3,
        RuntimeDataField::Value => 4,
        RuntimeDataField::Code => 5,
        RuntimeDataField::CodeSize => 6,
        RuntimeDataField::Address => 7,
        RuntimeDataField::Sender => 8,
        RuntimeDataField::Depth => 9,
    }
}

/// The field at position `i` of the RuntimeData record (for `i` below ten).
pub open spec fn field_at(i: int) -> RuntimeDataField {
    if i == 0 {
        RuntimeDataField::Gas
    } else if i == 1 {
        RuntimeDataField::GasPrice
    } else if i == 2 {
        RuntimeDataField::CallData
    } else if i == 3 {
        RuntimeDataField::CallDataSize
    } else if i == 4 {
        RuntimeDataField::Value
    } else if i == 5 {
        RuntimeDataField::Code
    } else if i == 6 {
        RuntimeDataField::CodeSize
    } else if i == 7 {
        RuntimeDataField::Address
    } else if i == 8 {
        RuntimeDataField::Sender
    } else {
        RuntimeDataField::Depth
    }
}

/// The shape of each RuntimeData field: gas counters, sizes and the depth
/// are 64-bit, values and addresses are 256-bit words, and call data and
/// code are byte pointers.
pub open spec fn field_shape(f: RuntimeDataField) -> FieldShape {
    match f {
        RuntimeDataField::Gas => FieldShape::Int { bits: 64 },
        RuntimeDataField::GasPrice => FieldShape::Int { bits: 64 },
        RuntimeDataField::CallData => FieldShape::PtrToInt { bits: 8 },
        RuntimeDataField::CallDataSize => FieldShape::Int { bits: 64 },
        RuntimeDataField::Value => FieldShape::Int { bits: 256 },
        RuntimeDataField::Code => FieldShape::PtrToInt { bits: 8 },
        RuntimeDataField::CodeSize => FieldShape::Int { bits: 64 },
        RuntimeDataField::Address => FieldShape::Int { bits: 256 },
        RuntimeDataField::Sender => FieldShape::Int { bits: 256 },
        RuntimeDataField::Depth => FieldShape::Int { bits: 64 },
    }
}

/// The name given to a value read from field `f`.
pub open spec fn field_name(f: RuntimeDataField) -> Seq<char> {
    match f {
        RuntimeDataField::Gas => "gas"@,
        RuntimeDataField::GasPrice => "gasPrice"@,
        RuntimeDataField::CallData => "callData"@,
        RuntimeDataField::CallDataSize => "callDataSize"@,
        RuntimeDataField::Value => "value"@,
        RuntimeDataField::Code => "code"@,
        RuntimeDataField::CodeSize => "codeSize"@,
        RuntimeDataField::Address => "address"@,
        RuntimeDataField::Sender => "sender"@,
        RuntimeDataField::Depth => "depth"@,
    }
}

/// The name tag of each layout's record.
pub open spec fn layout_name(l: Layout) -> Seq<char> {
    match l {
        Layout::RuntimeData => "RuntimeData"@,
        Layout::Env => "Env"@,
        Layout::MemRep => "MemoryRepresentation"@,
        Layout::Runtime => "Runtime"@,
    }
}

/// The field shapes of each layout, or `None` where only the name is fixed.
pub open spec fn layout_fields(l: Layout) -> Option<Seq<FieldShape>> {
    match l {
        Layout::RuntimeData => Some(Seq::new(NUM_RUNTIME_DATA_FIELDS as nat, |i: int| field_shape(field_at(i)))),
        Layout::Env => None,
        Layout::MemRep => Some(
            seq![FieldShape::PtrToInt { bits: 8 }, FieldShape::Int { bits: 64 }, FieldShape::Int { bits: 64 }],
        ),
        Layout::Runtime => Some(
            seq![
                FieldShape::PtrTo { layout: Layout::RuntimeData },
                FieldShape::PtrTo { layout: Layout::Env },
                FieldShape::Inline { layout: Layout::MemRep },
            ],
        ),
    }
}

/// Whether the type at `id` is a record of layout `l`, looking at most
/// `depth` records deep: a sized, non-packed record with the layout's name
/// and exactly its fields, each of its shape. Where a layout fixes no
/// fields, the name alone decides.
pub open spec fn record_matches(t: Seq<IrType>, id: int, l: Layout, depth: nat) -> bool
    decreases depth, 1nat,
{
    &&& 0 <= id < t.len()
    &&& t[id] matches IrType::Record { name: Some(n), body, packed }
    &&& n@ == layout_name(l)
    &&& match layout_fields(l) {
        None => true,
        Some(shapes) => {
            &&& !packed
            &&& sized(t, id)
            &&& body matches Some(b)
            &&& b@.len() == shapes.len()
            &&& forall|j: int| 0 <= j < shapes.len() ==> field_matches(t, #[trigger] b@[j] as int, shapes[j], depth)
        },
    }
}

/// Whether the type at `id` has the shape `s`.
pub open spec fn field_matches(t: Seq<IrType>, id: int, s: FieldShape, depth: nat) -> bool
    decreases depth, 0nat,
{
    &&& 0 <= id < t.len()
    &&& match s {
        FieldShape::Int { bits } => t[id] == IrType::Int { bits },
        FieldShape::PtrToInt { bits } => t[id] matches IrType::Pointer { pointee } && 0 <= pointee < t.len()
            && t[pointee as int] == IrType::Int { bits },
        FieldShape::PtrTo { layout } => t[id] matches IrType::Pointer { pointee } && depth > 0
            && record_matches(t, pointee as int, layout, (depth - 1) as nat),
        FieldShape::Inline { layout } => depth > 0 && record_matches(t, id, layout, (depth - 1) as nat),
    }
}

/// How deep the layouts nest.
pub const LAYOUT_DEPTH: u32 = 2;

/// Whether the type at `id` is a record of layout `l`.
pub open spec fn is_layout(t: Seq<IrType>, id: int, l: Layout) -> bool {
    record_matches(t, id, l, LAYOUT_DEPTH as nat)
}

impl RuntimeDataField {
    /// The position of this field in the RuntimeData record.
    pub fn to_index(&self) -> (r: usize)
        ensures
            r == field_index(*self),
    {
        match self {
            RuntimeDataField::Gas => 0,
            RuntimeDataField::GasPrice => 1,
            RuntimeDataField::CallData => 2,
            RuntimeDataField::CallDataSize => 3,
            RuntimeDataField::Value => 4,
            RuntimeDataField::Code => 5,
            RuntimeDataField::CodeSize => 6,
            RuntimeDataField::Address => 7,
            RuntimeDataField::Sender => 8,
            RuntimeDataField::Depth => 9,
        }
    }

    /// The field at position `i`.
    pub fn from_index(i: usize) -> (r: RuntimeDataField)
        requires
            i < NUM_RUNTIME_DATA_FIELDS,
        ensures
            r == field_at(i as int),
    {
        if i == 0 {
            RuntimeDataField::Gas
        } else if i == 1 {
            RuntimeDataField::GasPrice
        } else if i == 2 {
            RuntimeDataField::CallData
        } else if i == 3 {
            RuntimeDataField::CallDataSize
        } else if i == 4 {
            RuntimeDataField::Value
        } else if i == 5 {
            RuntimeDataField::Code
        } else if i == 6 {
            RuntimeDataField::CodeSize
        } else if i == 7 {
            RuntimeDataField::Address
        } else if i == 8 {
            RuntimeDataField::Sender
        } else {
            RuntimeDataField::Depth
        }
    }

    /// The name given to a value read from this field, for diagnostics.
    pub fn to_name(&self) -> (r: &'static str)
        ensures
            r@ == field_name(*self),
    {
        match self {
            RuntimeDataField::Gas => "gas",
            RuntimeDataField::GasPrice => "gasPrice",
            RuntimeDataField::CallData => "callData",
            RuntimeDataField::CallDataSize => "callDataSize",
            RuntimeDataField::Value => "value",
            RuntimeDataField::Code => "code",
            RuntimeDataField::CodeSize => "codeSize",
            RuntimeDataField::Address => "address",
            RuntimeDataField::Sender => "sender",
            RuntimeDataField::Depth => "depth",
        }
    }

    /// The shape of this field in the RuntimeData record.
    pub fn shape(&self) -> (r: FieldShape)
        ensures
            r == field_shape(*self),
    {
        match self {
            RuntimeDataField::Gas => FieldShape::Int { bits: 64 },
            RuntimeDataField::GasPrice => FieldShape::Int { bits: 64 },
            RuntimeDataField::CallData => FieldShape::PtrToInt { bits: 8 },
            RuntimeDataField::CallDataSize => FieldShape::Int { bits: 64 },
            RuntimeDataField::Value => FieldShape::Int { bits: 256 },
            RuntimeDataField::Code => FieldShape::PtrToInt { bits: 8 },
            RuntimeDataField::CodeSize => FieldShape::Int { bits: 64 },
            RuntimeDataField::Address => FieldShape::Int { bits: 256 },
            RuntimeDataField::Sender => FieldShape::Int { bits: 256 },
            RuntimeDataField::Depth => FieldShape::Int { bits: 64 },
        }
    }
}

/// The name tag of a layout's record.
pub fn layout_name_exec(l: Layout) -> (r: String)
    ensures
        r@ == layout_name(l),
{
    match l {
        Layout::RuntimeData => String::from_str("RuntimeData"),
        Layout::Env => String::from_str("Env"),
        Layout::MemRep => String::from_str("MemoryRepresentation"),
        Layout::Runtime => String::from_str("Runtime"),
    }
}

/// The field shapes of a layout.
pub fn layout_fields_exec(l: Layout) -> (r: Option<Vec<FieldShape>>)
    ensures
        match layout_fields(l) {
            None => r is None,
            Some(s) => r matches Some(v) && v@ == s,
        },
{
    match l {
        Layout::RuntimeData => {
            let mut v: Vec<FieldShape> = Vec::new();
            let mut i: usize = 0;
            while i < NUM_RUNTIME_DATA_FIELDS
                invariant
                    i <= NUM_RUNTIME_DATA_FIELDS,
                    v@.len() == i,
                    forall|j: int| 0 <= j < i ==> v@[j] == field_shape(field_at(j)),
                decreases NUM_RUNTIME_DATA_FIELDS - i,
            {
                let f = RuntimeDataField::from_index(i);
                v.push(f.shape());
                i += 1;
            }
            assert(v@ == Seq::new(NUM_RUNTIME_DATA_FIELDS as nat, |i: int| field_shape(field_at(i))));
            Some(v)
        },
        Layout::Env => None,
        Layout::MemRep => Some(
            vec![FieldShape::PtrToInt { bits: 8 }, FieldShape::Int { bits: 64 }, FieldShape::Int { bits: 64 }],
        ),
        Layout::Runtime => Some(
            vec![
                FieldShape::PtrTo { layout: Layout::RuntimeData },
                FieldShape::PtrTo { layout: Layout::Env },
                FieldShape::Inline { layout: Layout::MemRep },
            ],
        ),
    }
}

/// Whether the type at `id` is a record of layout `l`, looking at most
/// `depth` records deep.
fn record_matches_exec(tab: &TypeTable, id: usize, l: Layout, depth: u32) -> (r: bool)
    requires
        tab.wf(),
    ensures
        r == record_matches(tab@, id as int, l, depth as nat),
    decreases depth, 1nat,
{
    if id >= tab.len_exec() {
        return false;
    }
    match tab.get(id) {
        IrType::Record { name: Some(n), body, packed } => {
            let expected = layout_name_exec(l);
            if !(*n == expected) {
                return false;
            }
            match layout_fields_exec(l) {
                None => true,
                Some(shapes) => {
                    if *packed || !tab.is_sized(id) {
                        return false;
                    }
                    match body {
                        None => false,
                        Some(b) => {
                            if b.len() != shapes.len() {
                                return false;
                            }
                            let mut j: usize = 0;
                            while j < shapes.len()
                                invariant
                                    tab.wf(),
                                    id < tab@.len(),
                                    tab@[id as int] matches IrType::Record { body: Some(bb), .. } && bb@ == b@,
                                    layout_fields(l) == Some(shapes@),
                                    b@.len() == shapes@.len(),
                                    0 <= j <= shapes@.len(),
                                    forall|k: int| 0 <= k < j ==> field_matches(tab@, #[trigger] b@[k] as int, shapes@[k], depth as nat),
                                decreases shapes.len() - j,
                            {
                                if !field_matches_exec(tab, b[j], shapes[j], depth) {
                                    assert(!field_matches(tab@, b@[j as int] as int, shapes@[j as int], depth as nat));
                                    return false;
                                }
                                j += 1;
                            }
                            true
                        },
                    }
                },
            }
        },
        _ => false,
    }
}

/// Whether the type at `id` has the shape `s`, looking at most `depth`
/// records deep.
fn field_matches_exec(tab: &TypeTable, id: usize, s: FieldShape, depth: u32) -> (r: bool)
    requires
        tab.wf(),
    ensures
        r == field_matches(tab@, id as int, s, depth as nat),
    decreases depth, 0nat,
{
    if id >= tab.len_exec() {
        return false;
    }
    match s {
        FieldShape::Int { bits } => match tab.get(id) {
            IrType::Int { bits: b } => *b == bits,
            _ => false,
        },
        FieldShape::PtrToInt { bits } => match tab.get(id) {
            IrType::Pointer { pointee } => {
                if *pointee >= tab.len_exec() {
                    return false;
                }
                match tab.get(*pointee) {
                    IrType::Int { bits: b } => *b == bits,
                    _ => false,
                }
            },
            _ => false,
        },
        FieldShape::PtrTo { layout } => match tab.get(id) {
            IrType::Pointer { pointee } => depth > 0 && record_matches_exec(tab, *pointee, layout, depth - 1),
            _ => false,
        },
        FieldShape::Inline { layout } => depth > 0 && record_matches_exec(tab, id, layout, depth - 1),
    }
}

/// Whether the type at `id` is a record of layout `l`: the one structural
/// validator behind every layout check of the crate. It never fails.
pub fn matches_layout(tab: &TypeTable, id: usize, l: Layout) -> (r: bool)
    requires
        tab.wf(),
    ensures
        r == is_layout(tab@, id as int, l),
{
    record_matches_exec(tab, id, l, LAYOUT_DEPTH)
}

} // verus!
