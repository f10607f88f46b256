//! Model of the foreign runtime's type table.
//!
//! The runtime keeps one canonical, address-stable record per type; records
//! form a single-rooted tree through their base links, and the runtime
//! compares types by record address alone. The table is modelled as a
//! registry in which a record's address is its index, the root sits at
//! address zero with itself as base, and every other record's base address
//! is strictly smaller than its own — which is exactly what makes the
//! subtype walk terminate.

use vstd::prelude::*;

verus! {

/// Token standing for the foreign runtime's single global exclusivity
/// lock. Runtime memory — the type table and the lazy cells' payloads — may
/// only be touched under that lock; the lock's own acquire/release
/// mechanics are outside the bridge, so the token only marks the code paths
/// that run under it.
#[derive(Clone, Copy)]
pub struct Python {
}

/// An opaque handle to an object living in the foreign runtime's heap. The
/// bridge only ever reads the address of the object's runtime type.
#[derive(Clone, Copy)]
pub struct PyAny {
    /// Address of the record for this object's runtime type.
    pub type_addr: usize,
}

/// The runtime's canonical metadata block for one type: its address (the
/// type's identity), its stable name and owning module, its declared
/// capability flags, and the address of its base type's record.
#[derive(Clone, Copy)]
pub struct TypeRecord {
    /// The record's own address; the type's identity.
    pub addr: usize,
    /// Stable type name.
    pub name: &'static str,
    /// Owning module's name, if the type declares one.
    pub module: Option<&'static str>,
    /// Capability flags, combined from `type_flags`.
    pub flags: usize,
    /// Address of the base type's record; the root names itself.
    pub base_addr: usize,
}

/// The type table is well formed when each record's address is its index,
/// the root is its own base, and every other base link points strictly
/// downwards.
pub open spec fn wf_records(records: Seq<TypeRecord>) -> bool {
    forall|i: int|
        0 <= i < records.len() ==> (#[trigger] records[i]).addr == i && (if i == 0 {
            records[i].base_addr == 0
        } else {
            (records[i].base_addr as int) < i
        })
}

/// `a` names a type that is `b` or a descendant of `b`: the base chain
/// starting at `a` passes through `b`.
pub open spec fn spec_is_subtype(records: Seq<TypeRecord>, a: int, b: int) -> bool
    decreases a,
    when wf_records(records) && 0 <= a
{
    a == b || (0 < a < records.len() && spec_is_subtype(records, records[a].base_addr as int, b))
}

/// The runtime's type table: one record per registered type, addressed by
/// position.
pub struct TypeRegistry {
    records: Vec<TypeRecord>,
}

impl View for TypeRegistry {
    type V = Seq<TypeRecord>;

    closed spec fn view(&self) -> Seq<TypeRecord> {
        self.records@
    }
}

impl TypeRegistry {
    pub open spec fn wf(&self) -> bool {
        wf_records(self@)
    }

    /// An empty table, before any type has registered.
    pub fn new() -> (r: TypeRegistry)
        ensures
            r@ =~= Seq::<TypeRecord>::empty(),
            r.wf(),
    {
        TypeRegistry { records: Vec::new() }
    }

    pub fn len(&self) -> (n: usize)
        ensures
            n == self@.len(),
    {
        self.records.len()
    }

    /// Read the record at `addr`.
    pub fn record_at(&self, addr: usize) -> (r: &TypeRecord)
        requires
            addr < self@.len(),
        ensures
            *r == self@[addr as int],
    {
        &self.records[addr]
    }

    /// Append the record for a newly created type and return its address.
    /// The first record registered is the root and must name itself as base;
    /// every later record must name an already registered base.
    pub fn register(
        &mut self,
        name: &'static str,
        module: Option<&'static str>,
        flags: usize,
        base_addr: usize,
    ) -> (addr: usize)
        requires
            old(self).wf(),
            old(self)@.len() < usize::MAX,
            if old(self)@.len() == 0 {
                base_addr == 0
            } else {
                base_addr < old(self)@.len()
            },
        ensures
            addr == old(self)@.len(),
            final(self)@ =~= old(self)@.push(
                (TypeRecord { addr, name, module, flags, base_addr }),
            ),
            final(self).wf(),
    {
        let addr = self.records.len();
        self.records.push(TypeRecord { addr, name, module, flags, base_addr });
        addr
    }

    /// Walk the base chain from `a` and report whether it passes through
    /// `b`: the runtime's subtype check, comparing records by address.
    pub fn is_subtype(&self, a: usize, b: usize) -> (r: bool)
        requires
            self.wf(),
            a < self@.len(),
        ensures
            r == spec_is_subtype(self@, a as int, b as int),
    {
        let mut cur = a;
        loop
            invariant
                self.wf(),
                cur < self@.len(),
                spec_is_subtype(self@, a as int, b as int) == spec_is_subtype(
                    self@,
                    cur as int,
                    b as int,
                ),
            decreases cur,
        {
            if cur == b {
                return true;
            }
            if cur == 0 {
                return false;
            }
            cur = self.records[cur].base_addr;
        }
    }
}

/// Every registered type is an instance of itself and of its declared base:
/// on a well-formed table the subtype relation is reflexive and covers the
/// base link, so an instance of a subtype passes the instance check of the
/// subtype and of the type it extends.
pub proof fn lemma_subtype_reaches_base(records: Seq<TypeRecord>, a: int)
    requires
        wf_records(records),
        0 <= a < records.len(),
    ensures
        spec_is_subtype(records, a, a),
        spec_is_subtype(records, a, records[a].base_addr as int),
{
    if a != records[a].base_addr as int {
        assert(spec_is_subtype(records, records[a].base_addr as int, records[a].base_addr as int));
    }
}

/// The subtype relation is transitive: an instance of a type passes the
/// instance check of every ancestor along the base chain, however deep the
/// descent.
pub proof fn lemma_subtype_transitive(records: Seq<TypeRecord>, a: int, b: int, c: int)
    requires
        wf_records(records),
        0 <= a,
        0 <= b,
        spec_is_subtype(records, a, b),
        spec_is_subtype(records, b, c),
    ensures
        spec_is_subtype(records, a, c),
    decreases a,
{
    if a != b {
        lemma_subtype_transitive(records, records[a].base_addr as int, b, c);
    }
}

} // verus!
