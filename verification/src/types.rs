//! The bridge's built-in descriptors: the root object type and the
//! metatype. Both are native representations supplied by the runtime
//! itself, and they anchor the single-rooted descriptor tree that
//! host-defined types extend.

use vstd::prelude::*;

use crate::runtime::PyAny;
use crate::type_flags;
use crate::type_object::PyObjectLayout;
use crate::type_object::PyObjectSizedLayout;
use crate::type_object::PyTypeInfo;

verus! {

/// Address of the root object type's record: the tree's root, its own base.
pub const OBJECT_TYPE_ADDR: usize = 0;

/// Address of the metatype's record — the type of type objects.
pub const TYPE_TYPE_ADDR: usize = 1;

/// An owned, safe handle to a type's canonical record, as handed out by
/// `PyTypeObject::type_object`. Owning one keeps the record alive; the
/// record itself stays the runtime's.
#[derive(Clone, Copy)]
pub struct PyType {
    /// Address of the record the handle refers to.
    pub addr: usize,
}

impl PyObjectLayout<PyAny> for PyAny {
    type BaseLayout = PyAny;

    open spec fn spec_is_native() -> bool {
        true
    }

    fn is_native_type() -> (r: bool) {
        true
    }
}

impl PyObjectSizedLayout<PyAny> for PyAny {

}

/// The root of the type hierarchy: every object handle is an instance of
/// it, and every other descriptor's base chain ends here. Its concrete
/// representation is the generic object handle itself.
impl PyTypeInfo for PyAny {
    type Type = ();

    type BaseType = PyAny;

    type ConcreteLayout = PyAny;

    type Initializer = ();

    open spec fn spec_name() -> Seq<char> {
        "object"@
    }

    open spec fn spec_module() -> Option<Seq<char>> {
        None
    }

    open spec fn spec_description() -> Seq<char> {
        "base of the type hierarchy"@
    }

    open spec fn spec_flags() -> usize {
        type_flags::BASETYPE
    }

    open spec fn spec_type_addr() -> usize {
        OBJECT_TYPE_ADDR
    }

    open spec fn spec_base_addr() -> usize {
        OBJECT_TYPE_ADDR
    }

    fn name() -> (r: &'static str) {
        "object"
    }

    fn module() -> (r: Option<&'static str>) {
        None
    }

    fn description() -> (r: &'static str) {
        "base of the type hierarchy"
    }

    fn flags() -> (r: usize) {
        type_flags::BASETYPE
    }

    fn type_object() -> (r: usize) {
        OBJECT_TYPE_ADDR
    }

    fn base_type_object() -> (r: usize) {
        OBJECT_TYPE_ADDR
    }
}

impl PyObjectLayout<PyType> for PyType {
    type BaseLayout = PyAny;

    open spec fn spec_is_native() -> bool {
        true
    }

    fn is_native_type() -> (r: bool) {
        true
    }
}

impl PyObjectSizedLayout<PyType> for PyType {

}

/// The metatype: type objects are its instances, and it extends the root
/// object type.
impl PyTypeInfo for PyType {
    type Type = ();

    type BaseType = PyAny;

    type ConcreteLayout = PyType;

    type Initializer = ();

    open spec fn spec_name() -> Seq<char> {
        "type"@
    }

    open spec fn spec_module() -> Option<Seq<char>> {
        None
    }

    open spec fn spec_description() -> Seq<char> {
        "the type of type objects"@
    }

    open spec fn spec_flags() -> usize {
        type_flags::BASETYPE
    }

    open spec fn spec_type_addr() -> usize {
        TYPE_TYPE_ADDR
    }

    open spec fn spec_base_addr() -> usize {
        OBJECT_TYPE_ADDR
    }

    fn name() -> (r: &'static str) {
        "type"
    }

    fn module() -> (r: Option<&'static str>) {
        None
    }

    fn description() -> (r: &'static str) {
        "the type of type objects"
    }

    fn flags() -> (r: usize) {
        type_flags::BASETYPE
    }

    fn type_object() -> (r: usize) {
        TYPE_TYPE_ADDR
    }

    fn base_type_object() -> (r: usize) {
        OBJECT_TYPE_ADDR
    }
}

} // verus!
