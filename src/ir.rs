//! A model of the code-generation backend's type universe.
//!
//! Every type lives in a `TypeTable` and is referred to by its index. Integer
//! and pointer types are interned, so two equal ones share one index; records
//! are created with their body (or opaque, without one). A table only grows,
//! and every entry refers only to entries created before it.
use vstd::prelude::*;

verus! {

/// One type of the backend.
#[derive(Clone, Debug)]
pub enum IrType {
    /// An integer of the given width in bits.
    Int { bits: u32 },
    /// A pointer to the type at index `pointee`.
    Pointer { pointee: usize },
    /// A record; `body` is `None` while the record is opaque.
    Record { name: Option<String>, body: Option<Vec<usize>>, packed: bool },
    /// A function signature.
    Function { ret: Option<usize>, params: Vec<usize> },
}

/// The types of one backend handle.
pub struct TypeTable {
    pub entries: Vec<IrType>,
}

/// Every index that `t` refers to is below `bound`.
pub open spec fn refs_below(t: IrType, bound: int) -> bool {
    match t {
        IrType::Int { bits } => bits > 0,
        IrType::Pointer { pointee } => pointee < bound,
        IrType::Record { body, .. } => match body {
            Some(b) => forall|j: int| 0 <= j < b@.len() ==> b@[j] < bound,
            None => true,
        },
        IrType::Function { ret, params } => (match ret {
            Some(r) => r < bound,
            None => true,
        }) && forall|j: int| 0 <= j < params@.len() ==> params@[j] < bound,
    }
}

/// The type at `id` is complete: it has a size. An opaque record has none,
/// nor has a record that holds an unsized field by value, nor a function.
pub open spec fn sized(t: Seq<IrType>, id: int) -> bool
    decreases id,
{
    if id < 0 || id >= t.len() {
        false
    } else {
        match t[id] {
            IrType::Int { .. } => true,
            IrType::Pointer { .. } => true,
            IrType::Record { body, .. } => match body {
                Some(b) => forall|j: int| 0 <= j < b@.len() ==> (#[trigger] b@[j] < id && sized(t, b@[j] as int)),
                None => false,
            },
            IrType::Function { .. } => false,
        }
    }
}

/// Integer and pointer types are interned: one entry for each.
pub open spec fn interned(t: IrType) -> bool {
    t is Int || t is Pointer
}

/// Each entry refers only to entries created before it, and no interned
/// type stands twice.
pub open spec fn table_wf(t: Seq<IrType>) -> bool {
    &&& forall|i: int| 0 <= i < t.len() ==> refs_below(#[trigger] t[i], i)
    &&& forall|i: int, j: int| 0 <= i < j < t.len() && interned(#[trigger] t[i]) ==> t[i] != #[trigger] t[j]
}

/// What a lookup of the interned type `ty` does: `r` holds it afterwards,
/// and the table is unchanged where it held it already, else `ty` is
/// appended.
pub open spec fn lookup_post(before: Seq<IrType>, after: Seq<IrType>, ty: IrType, r: usize) -> bool {
    &&& table_wf(after)
    &&& r < after.len()
    &&& after[r as int] == ty
    &&& before.contains(ty) ==> after == before
    &&& !before.contains(ty) ==> after == before.push(ty)
}

/// Looking up one integer or pointer type twice in a row on one table finds
/// the same entry, and the second lookup changes nothing.
pub proof fn lemma_lookup_twice(t0: Seq<IrType>, t1: Seq<IrType>, t2: Seq<IrType>, ty: IrType, r1: usize, r2: usize)
    requires
        table_wf(t0),
        interned(ty),
        lookup_post(t0, t1, ty, r1),
        lookup_post(t1, t2, ty, r2),
    ensures
        r1 == r2,
        t2 == t1,
{
    assert(t1.contains(ty)) by {
        assert(t1[r1 as int] == ty);
    }
    if r1 < r2 {
        assert(t1[r1 as int] != t1[r2 as int]);
    } else if r2 < r1 {
        assert(t1[r2 as int] != t1[r1 as int]);
    }
}

impl TypeTable {
    pub open spec fn view(&self) -> Seq<IrType> {
        self.entries@
    }

    pub open spec fn len(&self) -> nat {
        self.entries@.len()
    }

    /// Each entry refers only to entries created before it, and no integer
    /// or pointer type stands twice.
    pub open spec fn wf(&self) -> bool {
        table_wf(self@)
    }

    /// `self` is `earlier` with entries appended.
    pub open spec fn extends(&self, earlier: &TypeTable) -> bool {
        &&& earlier.entries@.len() <= self.entries@.len()
        &&& forall|i: int| 0 <= i < earlier.entries@.len() ==> #[trigger] self.entries@[i] == earlier.entries@[i]
    }

    /// A table with no types.
    pub fn new() -> (r: TypeTable)
        ensures
            r.wf(),
            r@.len() == 0,
    {
        TypeTable { entries: Vec::new() }
    }

    pub fn len_exec(&self) -> (r: usize)
        ensures
            r == self@.len(),
    {
        self.entries.len()
    }

    /// The type at `id`.
    pub fn get(&self, id: usize) -> (r: &IrType)
        requires
            id < self@.len(),
        ensures
            *r == self@[id as int],
    {
        &self.entries[id]
    }

    /// The integer type of `bits` bits, added unless it is there.
    pub fn int_type(&mut self, bits: u32) -> (r: usize)
        requires
            old(self).wf(),
            bits > 0,
        ensures
            final(self).wf(),
            final(self).extends(old(self)),
            lookup_post(old(self)@, final(self)@, IrType::Int { bits }, r),
            old(self)@.contains(IrType::Int { bits }) ==> *final(self) == *old(self),
    {
        let n = self.entries.len();
        let mut i: usize = 0;
        while i < n
            invariant
                n == self@.len(),
                *self == *old(self),
                self.wf(),
                0 <= i <= n,
                forall|j: int| 0 <= j < i ==> self@[j] != (IrType::Int { bits }),
            decreases n - i,
        {
            if let IrType::Int { bits: b } = &self.entries[i] {
                if *b == bits {
                    assert(self@.contains(IrType::Int { bits })) by { assert(self@[i as int] == IrType::Int { bits }); }
                    return i;
                }
            }
            i += 1;
        }
        self.entries.push(IrType::Int { bits });
        n
    }

    /// The type of pointers to `pointee`, added unless it is there.
    pub fn pointer_to(&mut self, pointee: usize) -> (r: usize)
        requires
            old(self).wf(),
            pointee < old(self)@.len(),
        ensures
            final(self).wf(),
            final(self).extends(old(self)),
            lookup_post(old(self)@, final(self)@, IrType::Pointer { pointee }, r),
            old(self)@.contains(IrType::Pointer { pointee }) ==> *final(self) == *old(self),
    {
        let n = self.entries.len();
        let mut i: usize = 0;
        while i < n
            invariant
                n == self@.len(),
                *self == *old(self),
                self.wf(),
                0 <= i <= n,
                forall|j: int| 0 <= j < i ==> self@[j] != (IrType::Pointer { pointee }),
            decreases n - i,
        {
            if let IrType::Pointer { pointee: p } = &self.entries[i] {
                if *p == pointee {
                    assert(self@.contains(IrType::Pointer { pointee })) by { assert(self@[i as int] == IrType::Pointer { pointee }); }
                    return i;
                }
            }
            i += 1;
        }
        self.entries.push(IrType::Pointer { pointee });
        n
    }

    /// Adds a record: named or not, opaque (`body` is `None`) or with the
    /// given field types, packed or not. Records are never interned.
    pub fn add_record(&mut self, name: Option<String>, body: Option<Vec<usize>>, packed: bool) -> (r: usize)
        requires
            old(self).wf(),
            body matches Some(b) ==> forall|j: int| 0 <= j < b@.len() ==> b@[j] < old(self)@.len(),
        ensures
            final(self).wf(),
            final(self).extends(old(self)),
            r == old(self)@.len(),
            final(self)@ == old(self)@.push(IrType::Record { name, body, packed }),
    {
        let n = self.entries.len();
        let ghost t = IrType::Record { name, body, packed };
        self.entries.push(IrType::Record { name, body, packed });
        assert(refs_below(t, n as int));
        n
    }

    /// Adds a function signature.
    pub fn add_function(&mut self, ret: Option<usize>, params: Vec<usize>) -> (r: usize)
        requires
            old(self).wf(),
            ret matches Some(x) ==> x < old(self)@.len(),
            forall|j: int| 0 <= j < params@.len() ==> params@[j] < old(self)@.len(),
        ensures
            final(self).wf(),
            final(self).extends(old(self)),
            r == old(self)@.len(),
            final(self)@ == old(self)@.push(IrType::Function { ret, params }),
    {
        let n = self.entries.len();
        self.entries.push(IrType::Function { ret, params });
        n
    }

    /// The type of field `i` of the record at `id`.
    pub fn field_type(&self, id: usize, i: usize) -> (r: usize)
        requires
            id < self@.len(),
            self@[id as int] matches IrType::Record { body: Some(b), .. } && i < b@.len(),
        ensures
            self@[id as int] matches IrType::Record { body: Some(b), .. } && r == b@[i as int],
    {
        match &self.entries[id] {
            IrType::Record { body: Some(b), .. } => b[i],
            _ => 0,
        }
    }

    /// Whether the type at `id` is complete.
    pub fn is_sized(&self, id: usize) -> (r: bool)
        requires
            self.wf(),
        ensures
            r == sized(self@, id as int),
        decreases id,
    {
        if id >= self.entries.len() {
            return false;
        }
        match &self.entries[id] {
            IrType::Int { .. } => true,
            IrType::Pointer { .. } => true,
            IrType::Function { .. } => false,
            IrType::Record { body, .. } => match body {
                None => false,
                Some(b) => {
                    assert(refs_below(self@[id as int], id as int));
                    let mut j: usize = 0;
                    while j < b.len()
                        invariant
                            self.wf(),
                            id < self@.len(),
                            self@[id as int] matches IrType::Record { body: Some(bb), .. } && bb == b,
                            forall|k: int| 0 <= k < b@.len() ==> b@[k] < id,
                            forall|k: int| 0 <= k < j ==> sized(self@, #[trigger] b@[k] as int),
                        decreases b.len() - j,
                    {
                        if !self.is_sized(b[j]) {
                            assert(!(b@[j as int] < id && sized(self@, b@[j as int] as int)));
                            assert(!sized(self@, id as int));
                            return false;
                        }
                        j += 1;
                    }
                    true
                },
            },
        }
    }
}

/// Appending types changes no earlier type's completeness.
pub proof fn lemma_sized_extends(t1: Seq<IrType>, t2: Seq<IrType>, id: int)
    requires
        t1.len() <= t2.len(),
        forall|i: int| 0 <= i < t1.len() ==> #[trigger] t2[i] == t1[i],
        0 <= id < t1.len(),
    ensures
        sized(t2, id) == sized(t1, id),
    decreases id,
{
    assert(t2[id] == t1[id]);
    if let IrType::Record { body: Some(b), .. } = t1[id] {
        assert forall|j: int| 0 <= j < b@.len() && b@[j] < id && sized(t1, b@[j] as int) implies #[trigger] sized(t2, b@[j] as int) by {
            lemma_sized_extends(t1, t2, b@[j] as int);
        }
        assert forall|j: int| 0 <= j < b@.len() && b@[j] < id && sized(t2, b@[j] as int) implies #[trigger] sized(t1, b@[j] as int) by {
            lemma_sized_extends(t1, t2, b@[j] as int);
        }
        assert(sized(t1, id) == (forall|j: int| 0 <= j < b@.len() ==> (#[trigger] b@[j] < id && sized(t1, b@[j] as int))));
        assert(sized(t2, id) == (forall|j: int| 0 <= j < b@.len() ==> (#[trigger] b@[j] < id && sized(t2, b@[j] as int))));
    }
}

} // verus!
