//! Descriptor and layout capabilities, and the one-shot lazy type cells.
//!
//! A lazy cell holds the canonical runtime type record for one host type.
//! It starts uninitialized, transitions to initialized exactly once — the
//! first call of its accessor runs the constructor while holding the
//! runtime's global exclusivity lock — and is immutable afterwards. The
//! cell's behaviour is captured by the `LazyState` model below: every
//! accessor call is one `lazy_step`, and the laws at the end of this module
//! state that any sequence of calls runs the constructor at most once and
//! always hands back the same address.

use vstd::prelude::*;

use crate::runtime::PyAny;
use crate::runtime::Python;
use crate::runtime::TypeRecord;
use crate::runtime::TypeRegistry;
use crate::runtime::spec_is_subtype;
use crate::types::PyType;

verus! {

/// `T: PyObjectLayout<U>` states that `T` is a concrete in-memory
/// representation of `U` in the runtime's heap: either a native
/// representation supplied by the runtime itself, or a host-defined
/// representation layered over an embedded base-type sub-object.
///
/// The lifecycle hooks default to doing nothing, which is right for native
/// representations; host-defined representations override them to build and
/// tear down their embedded payload.
pub trait PyObjectLayout<T> {
    /// Representation of the embedded base-type sub-object; the chain of
    /// embeddings mirrors the descriptor tree's base chain.
    type BaseLayout;

    /// True when this representation is supplied by the runtime itself and
    /// is not a user-extensible embedding.
    spec fn spec_is_native() -> bool;

    /// Whether this layout is a native representation of the runtime.
    fn is_native_type() -> (r: bool)
        ensures
            r == Self::spec_is_native(),
    ;

    /// A view of the embedded base-type sub-object, for layered layouts
    /// that extend another host-defined type; representations that embed no
    /// base — native ones foremost — report nothing. Walking these views
    /// upwards follows the descriptor tree's base chain.
    fn get_super_or(&mut self) -> (r: Option<&mut Self::BaseLayout>)
        ensures
            Self::spec_is_native() ==> r is None,
    {
        None
    }

    /// Lifecycle hook: store the host value into the representation's
    /// payload once the runtime has allocated the object. A native
    /// representation has no host payload, so the default leaves the
    /// representation untouched.
    fn py_init(&mut self, _value: T) where Self: Sized
        ensures
            Self::spec_is_native() ==> *final(self) == *old(self),
    {
    }

    /// Lifecycle hook: tear the payload down while the runtime, under its
    /// lock, destroys the object. A native representation has no host
    /// payload, so the default leaves the representation untouched.
    fn py_drop(&mut self, _py: Python) where Self: Sized
        ensures
            Self::spec_is_native() ==> *final(self) == *old(self),
    {
    }
}

/// `T: PyObjectSizedLayout<U>` marks a representation of fixed size — one
/// that is not a variable-length runtime object — so that a host-defined
/// type may embed it as its base.
pub trait PyObjectSizedLayout<T>: PyObjectLayout<T> + Sized {

}

/// The descriptor capability: every host type participating in the bridge
/// carries identity — name, owning module, documentation, flags, base type,
/// concrete layout, initializer — and answers identity queries against
/// runtime object handles.
///
/// The load-bearing invariant of the whole bridge is that `type_object`
/// returns the one canonical record address for the type on every call:
/// the runtime compares types by address, so two calls that produced two
/// distinct addresses would silently break every later instance check.
/// Here the invariant is structural: `type_object` is pinned to the single
/// spec-level address `spec_type_addr`.
pub trait PyTypeInfo: Sized {
    /// Host value stored inside the concrete representation.
    type Type;

    /// The declared base type; every descriptor has exactly one, and the
    /// links form a single-rooted tree mirroring the runtime's hierarchy.
    /// The root declares itself. `spec_base_addr` carries the link at the
    /// address level.
    type BaseType;

    /// The concrete in-memory representation backing handles of this type.
    type ConcreteLayout;

    /// The initializer for the concrete representation; its protocol is an
    /// external collaborator of the bridge.
    type Initializer;

    /// The type's stable name.
    spec fn spec_name() -> Seq<char>;

    /// The owning module's name, if the type declares one.
    spec fn spec_module() -> Option<Seq<char>>;

    /// The type's documentation string.
    spec fn spec_description() -> Seq<char>;

    /// The capability flags the type declares.
    spec fn spec_flags() -> usize;

    /// The one canonical address of the type's runtime record.
    spec fn spec_type_addr() -> usize;

    /// The canonical record address of the declared base type; the root's
    /// is its own.
    spec fn spec_base_addr() -> usize;

    /// The type's stable name.
    fn name() -> (r: &'static str)
        ensures
            r@ == Self::spec_name(),
    ;

    /// The owning module's name, if any.
    fn module() -> (r: Option<&'static str>)
        ensures
            (match r {
                Some(s) => Self::spec_module() == Some(s@),
                None => Self::spec_module() is None,
            }),
    ;

    /// The type's documentation string.
    fn description() -> (r: &'static str)
        ensures
            r@ == Self::spec_description(),
    ;

    /// The type's capability flags.
    fn flags() -> (r: usize)
        ensures
            r == Self::spec_flags(),
    ;

    /// The address of the canonical runtime record for this type. Invariant
    /// across calls — see the trait documentation.
    fn type_object() -> (r: usize)
        ensures
            r == Self::spec_type_addr(),
    ;

    /// The address of the declared base type's canonical record.
    fn base_type_object() -> (r: usize)
        ensures
            r == Self::spec_base_addr(),
    ;

    /// Whether `object`'s runtime type is this type or a descendant of it:
    /// the runtime's own subtype walk against `type_object`'s address.
    fn is_instance(registry: &TypeRegistry, object: &PyAny) -> (r: bool)
        requires
            registry.wf(),
            object.type_addr < registry@.len(),
        ensures
            r == spec_is_subtype(
                registry@,
                object.type_addr as int,
                Self::spec_type_addr() as int,
            ),
    {
        registry.is_subtype(object.type_addr, Self::type_object())
    }

    /// Whether `object`'s runtime type is exactly this type: its record
    /// address is bit-identical to `type_object`'s, with no subtype
    /// allowance.
    fn is_exact_instance(registry: &TypeRegistry, object: &PyAny) -> (r: bool)
        ensures
            r == (object.type_addr == Self::spec_type_addr()),
    {
        object.type_addr == Self::type_object()
    }
}

/// A handle that carries its own identity proof: it can only be produced by
/// a successful instance check, so holding one is static evidence that the
/// wrapped object is an instance of `T`. The unchecked reinterpretation of
/// a handle as `T`'s concrete representation — the most dangerous contract
/// in the bridge, undefined behaviour when misapplied — is only legal for a
/// handle that could be wrapped in this token.
pub struct ValidatedHandle<T> {
    handle: PyAny,
    checked: Ghost<Seq<TypeRecord>>,
    descriptor: core::marker::PhantomData<T>,
}

impl<T: PyTypeInfo> ValidatedHandle<T> {
    /// The wrapped object handle.
    pub closed spec fn spec_handle(&self) -> PyAny {
        self.handle
    }

    /// The type table the instance check ran against.
    pub closed spec fn spec_records(&self) -> Seq<TypeRecord> {
        self.checked@
    }

    /// What the token proves: on the table it was checked against, the
    /// object's runtime type is `T` or a descendant of it.
    pub closed spec fn wf(&self) -> bool {
        spec_is_subtype(
            self.checked@,
            self.handle.type_addr as int,
            T::spec_type_addr() as int,
        )
    }

    /// Run the instance check and hand out the proof-carrying token exactly
    /// when it passes.
    pub fn validate(registry: &TypeRegistry, object: PyAny) -> (r: Option<ValidatedHandle<T>>)
        requires
            registry.wf(),
            object.type_addr < registry@.len(),
        ensures
            (match r {
                Some(v) => v.wf() && v.spec_handle() == object && v.spec_records() == registry@
                    && spec_is_subtype(
                    registry@,
                    object.type_addr as int,
                    T::spec_type_addr() as int,
                ),
                None => !spec_is_subtype(
                    registry@,
                    object.type_addr as int,
                    T::spec_type_addr() as int,
                ),
            }),
    {
        if T::is_instance(registry, &object) {
            Some(
                ValidatedHandle {
                    handle: object,
                    checked: Ghost(registry@),
                    descriptor: core::marker::PhantomData,
                },
            )
        } else {
            None
        }
    }

    /// Read the wrapped handle back.
    pub fn handle(&self) -> (r: &PyAny)
        ensures
            *r == self.spec_handle(),
    {
        &self.handle
    }
}

/// The narrower capability of owning a safe handle to one's type record.
/// Every descriptor has it automatically: the raw address from
/// `PyTypeInfo::type_object` is wrapped into an owned reference to the
/// existing record — the runtime bumps the record's reference count, it
/// never allocates a second record.
pub trait PyTypeObject {
    /// The address the owned handle refers to.
    spec fn spec_type_object_addr() -> usize;

    /// An owned, safe handle to the type's canonical record.
    fn type_object() -> (r: PyType)
        ensures
            r.addr == Self::spec_type_object_addr(),
    ;
}

impl<T: PyTypeInfo> PyTypeObject for T {
    open spec fn spec_type_object_addr() -> usize {
        T::spec_type_addr()
    }

    fn type_object() -> (r: PyType) {
        PyType { addr: <T as PyTypeInfo>::type_object() }
    }
}

/// Identity stability: whatever two calls of a descriptor's record accessor
/// return, the two addresses are the same — both are pinned to the type's
/// one canonical address.
pub proof fn lemma_type_object_identity<T: PyTypeInfo>(a1: usize, a2: usize)
    requires
        a1 == T::spec_type_addr(),
        a2 == T::spec_type_addr(),
    ensures
        a1 == a2,
{
}

/// Model of a one-shot cell: the payload slot, and how many times a
/// constructor has run on the cell's behalf.
pub ghost struct LazyState<V> {
    pub value: Option<V>,
    pub runs: nat,
}

/// A cell is initialized once its payload slot is filled.
pub open spec fn lazy_initialized<V>(c: LazyState<V>) -> bool {
    c.value is Some
}

/// One accessor call on a cell whose constructor would produce `v`: the
/// first call fills the slot and counts one constructor run; every later
/// call leaves the cell untouched.
pub open spec fn lazy_step<V>(c: LazyState<V>, v: V) -> LazyState<V> {
    if c.value is Some {
        c
    } else {
        LazyState { value: Some(v), runs: c.runs + 1 }
    }
}

/// What that accessor call returns: the already published payload, or the
/// freshly constructed `v` on the first call.
pub open spec fn lazy_result<V>(c: LazyState<V>, v: V) -> V {
    match c.value {
        Some(w) => w,
        None => v,
    }
}

/// A whole sequence of accessor calls, the i-th of which would construct
/// `vs[i]` if it came first.
pub open spec fn lazy_run_many<V>(c: LazyState<V>, vs: Seq<V>) -> LazyState<V>
    decreases vs.len(),
{
    if vs.len() == 0 {
        c
    } else {
        lazy_run_many(lazy_step(c, vs[0]), vs.drop_first())
    }
}

/// What the i-th call of that sequence returns.
pub open spec fn lazy_result_at<V>(c: LazyState<V>, vs: Seq<V>, i: int) -> V
    recommends
        0 <= i < vs.len(),
{
    lazy_result(lazy_run_many(c, vs.take(i)), vs[i])
}

/// After publication a cell is frozen: no sequence of further accessor
/// calls changes the payload or runs a constructor again.
pub proof fn lemma_initialized_cell_is_frozen<V>(c: LazyState<V>, vs: Seq<V>)
    requires
        lazy_initialized(c),
    ensures
        lazy_run_many(c, vs) == c,
    decreases vs.len(),
{
    if vs.len() != 0 {
        lemma_initialized_cell_is_frozen(lazy_step(c, vs[0]), vs.drop_first());
    }
}

/// Idempotence: every call of a sequence of accessor calls returns the same
/// value — the payload the cell's first-ever call published.
pub proof fn lemma_get_or_init_idempotent<V>(c: LazyState<V>, vs: Seq<V>, i: int)
    requires
        0 <= i < vs.len(),
    ensures
        lazy_result_at(c, vs, i) == lazy_result(c, vs[0]),
{
    if c.value is Some {
        lemma_initialized_cell_is_frozen(c, vs.take(i));
    } else {
        if i > 0 {
            assert(vs.take(i)[0] == vs[0]);
            assert(lazy_run_many(c, vs.take(i)) == lazy_run_many(
                lazy_step(c, vs[0]),
                vs.take(i).drop_first(),
            ));
            lemma_initialized_cell_is_frozen(lazy_step(c, vs[0]), vs.take(i).drop_first());
        } else {
            assert(vs.take(0) =~= Seq::<V>::empty());
        }
    }
}

/// Exactly-once construction: starting from an uninitialized cell, any
/// non-empty sequence of accessor calls runs a constructor exactly once,
/// and leaves the cell initialized.
pub proof fn lemma_construct_exactly_once<V>(c: LazyState<V>, vs: Seq<V>)
    requires
        !lazy_initialized(c),
        vs.len() >= 1,
    ensures
        lazy_run_many(c, vs).runs == c.runs + 1,
        lazy_initialized(lazy_run_many(c, vs)),
{
    lemma_initialized_cell_is_frozen(lazy_step(c, vs[0]), vs.drop_first());
}

/// One-shot holder for a runtime type record that must be synthesized by
/// calling into the foreign runtime at first use — a record not knowable at
/// compile time, as for exception-like types. The payload is the record's
/// address in the runtime's heap.
///
/// Host threads race on first use; the winner must publish the payload
/// before any later reader observes the initialized flag. Here exclusive
/// access to the cell stands in for the runtime's global lock, so the
/// one-shot gate is a plain test of the flag.
pub struct LazyHeapType {
    value: Option<usize>,
    initialized: bool,
    runs: Ghost<nat>,
}

impl View for LazyHeapType {
    type V = LazyState<usize>;

    closed spec fn view(&self) -> LazyState<usize> {
        LazyState { value: self.value, runs: self.runs@ }
    }
}

impl LazyHeapType {
    /// The initialized flag agrees with the payload slot.
    pub closed spec fn wf(&self) -> bool {
        self.initialized == self.value is Some
    }

    /// A fresh cell: uninitialized slot, no constructor run yet.
    pub fn new() -> (r: LazyHeapType)
        ensures
            r.wf(),
            r@.value is None,
            r@.runs == 0,
    {
        LazyHeapType { value: None, initialized: false, runs: Ghost(0) }
    }

    /// Return the cell's record address, constructing it first if no call
    /// has done so yet. The winning call acquires the runtime's global
    /// exclusivity lock and runs `constructor` under it; every call returns
    /// the one published address.
    pub fn get_or_init<F: Fn(Python) -> usize>(&mut self, constructor: F) -> (r: usize)
        requires
            old(self).wf(),
            forall|py: Python| call_requires(constructor, (py,)),
        ensures
            final(self).wf(),
            final(self)@ == lazy_step(old(self)@, r),
            final(self)@.value == Some(r),
            old(self)@.value is None ==> exists|py: Python|
                call_ensures(constructor, (py,), r),
    {
        if !self.initialized {
            // The true mutual exclusion point: the record may only be
            // synthesized while holding the runtime's lock.
            let py = Python {  };
            let built = constructor(py);
            self.value = Some(built);
            self.initialized = true;
            proof {
                self.runs@ = self.runs@ + 1;
            }
        }
        self.value.unwrap()
    }
}

/// One-shot holder for the runtime type record of a host-defined class,
/// whose shape is known at compile time through its descriptor. The first
/// accessor call synthesizes the record deterministically from the
/// descriptor while holding the runtime's global lock.
///
/// A synthesis the foreign runtime rejects is fatal at this boundary —
/// there is no valid degraded state for a type that failed to register.
/// The synthesis here reads only the descriptor and is total, so no
/// failure path remains.
pub struct LazyStaticType {
    value: Option<TypeRecord>,
    initialized: bool,
    runs: Ghost<nat>,
}

impl View for LazyStaticType {
    type V = LazyState<TypeRecord>;

    closed spec fn view(&self) -> LazyState<TypeRecord> {
        LazyState { value: self.value, runs: self.runs@ }
    }
}

impl LazyStaticType {
    /// The initialized flag agrees with the payload slot.
    pub closed spec fn wf(&self) -> bool {
        self.initialized == self.value is Some
    }

    /// A fresh cell: uninitialized slot, no synthesis run yet.
    pub fn new() -> (r: LazyStaticType)
        ensures
            r.wf(),
            r@.value is None,
            r@.runs == 0,
    {
        LazyStaticType { value: None, initialized: false, runs: Ghost(0) }
    }

    /// Return the cell's record, synthesizing it from `T`'s descriptor —
    /// name, module, flags, declared base — if no call has done so yet.
    /// Every call returns the one published record.
    pub fn get_or_init<T: PyTypeInfo>(&mut self) -> (r: &TypeRecord)
        requires
            old(self).wf(),
        ensures
            final(self).wf(),
            final(self)@ == lazy_step(old(self)@, *r),
            final(self)@.value == Some(*r),
            old(self)@.value is None ==> r.addr == T::spec_type_addr() && r.name@
                == T::spec_name() && (match r.module {
                Some(s) => T::spec_module() == Some(s@),
                None => T::spec_module() is None,
            }) && r.flags == T::spec_flags() && r.base_addr == T::spec_base_addr(),
    {
        if !self.initialized {
            // The record may only be synthesized while holding the
            // runtime's lock.
            let _py = Python {  };
            let record = TypeRecord {
                addr: <T as PyTypeInfo>::type_object(),
                name: T::name(),
                module: T::module(),
                flags: T::flags(),
                base_addr: T::base_type_object(),
            };
            self.value = Some(record);
            self.initialized = true;
            proof {
                self.runs@ = self.runs@ + 1;
            }
        }
        self.value.as_ref().unwrap()
    }
}

} // verus!
