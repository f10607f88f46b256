use pytype_bridge::runtime::{PyAny, Python, TypeRegistry};
use pytype_bridge::type_flags::{BASETYPE, EXTENDED, GC};
use pytype_bridge::type_object::{PyObjectLayout, PyTypeInfo, PyTypeObject, ValidatedHandle};
use pytype_bridge::types::{PyType, OBJECT_TYPE_ADDR, TYPE_TYPE_ADDR};

fn rooted_registry() -> TypeRegistry {
    let mut reg = TypeRegistry::new();
    let root = reg.register("object", None, BASETYPE, 0);
    assert_eq!(root, OBJECT_TYPE_ADDR);
    let meta = reg.register("type", None, BASETYPE, root);
    assert_eq!(meta, TYPE_TYPE_ADDR);
    reg
}

#[test]
fn type_record_address_is_stable_across_calls() {
    let first = <PyType as PyTypeInfo>::type_object();
    let second = <PyType as PyTypeInfo>::type_object();
    assert_eq!(first, second);
    let handle_a = <PyType as PyTypeObject>::type_object();
    let handle_b = <PyType as PyTypeObject>::type_object();
    assert_eq!(handle_a.addr, handle_b.addr);
    assert_eq!(handle_a.addr, first);
}

#[test]
fn owned_handle_wraps_the_raw_address() {
    let raw = <PyAny as PyTypeInfo>::type_object();
    let owned = <PyAny as PyTypeObject>::type_object();
    assert_eq!(owned.addr, raw);
}

#[test]
fn subtype_instance_passes_both_checks_exactness_only_its_own() {
    let reg = rooted_registry();
    let instance_of_meta = PyAny { type_addr: TYPE_TYPE_ADDR };
    assert!(PyType::is_instance(&reg, &instance_of_meta));
    assert!(PyAny::is_instance(&reg, &instance_of_meta));
    assert!(PyType::is_exact_instance(&reg, &instance_of_meta));
    assert!(!PyAny::is_exact_instance(&reg, &instance_of_meta));
}

#[test]
fn root_instance_is_exact_only_at_the_root() {
    let reg = rooted_registry();
    let plain_object = PyAny { type_addr: OBJECT_TYPE_ADDR };
    assert!(PyAny::is_instance(&reg, &plain_object));
    assert!(PyAny::is_exact_instance(&reg, &plain_object));
    assert!(!PyType::is_instance(&reg, &plain_object));
    assert!(!PyType::is_exact_instance(&reg, &plain_object));
}

#[test]
fn registered_host_type_walks_its_whole_base_chain() {
    let mut reg = rooted_registry();
    let parent = reg.register("Shape", Some("host.shapes"), BASETYPE, OBJECT_TYPE_ADDR);
    let child = reg.register("Circle", Some("host.shapes"), GC | EXTENDED, parent);
    assert_eq!(parent, 2);
    assert_eq!(child, 3);
    assert!(reg.is_subtype(child, child));
    assert!(reg.is_subtype(child, parent));
    assert!(reg.is_subtype(child, OBJECT_TYPE_ADDR));
    assert!(!reg.is_subtype(child, TYPE_TYPE_ADDR));
    assert!(!reg.is_subtype(parent, child));
    let rec = reg.record_at(child);
    assert_eq!(rec.addr, child);
    assert_eq!(rec.name, "Circle");
    assert_eq!(rec.module, Some("host.shapes"));
    assert_eq!(rec.flags, GC | EXTENDED);
    assert_eq!(rec.base_addr, parent);
}

#[test]
fn empty_registry_has_no_records() {
    let reg = TypeRegistry::new();
    assert_eq!(reg.len(), 0);
}

#[test]
fn native_layouts_embed_no_base_sub_object() {
    assert!(<PyAny as PyObjectLayout<PyAny>>::is_native_type());
    assert!(<PyType as PyObjectLayout<PyType>>::is_native_type());
    let mut handle = PyAny { type_addr: OBJECT_TYPE_ADDR };
    assert!(<PyAny as PyObjectLayout<PyAny>>::get_super_or(&mut handle).is_none());
}

#[test]
fn native_lifecycle_hooks_are_no_ops() {
    let mut handle = PyAny { type_addr: OBJECT_TYPE_ADDR };
    let stored = PyAny { type_addr: OBJECT_TYPE_ADDR };
    <PyAny as PyObjectLayout<PyAny>>::py_init(&mut handle, stored);
    assert_eq!(handle.type_addr, OBJECT_TYPE_ADDR);
    <PyAny as PyObjectLayout<PyAny>>::py_drop(&mut handle, Python {});
    assert_eq!(handle.type_addr, OBJECT_TYPE_ADDR);
}

#[test]
fn descriptor_identity_attributes() {
    assert_eq!(<PyAny as PyTypeInfo>::name(), "object");
    assert_eq!(<PyType as PyTypeInfo>::name(), "type");
    assert_eq!(<PyAny as PyTypeInfo>::module(), None);
    assert_eq!(<PyAny as PyTypeInfo>::description(), "base of the type hierarchy");
    assert_eq!(<PyType as PyTypeInfo>::base_type_object(), OBJECT_TYPE_ADDR);
    assert_eq!(<PyAny as PyTypeInfo>::base_type_object(), OBJECT_TYPE_ADDR);
}

#[test]
fn validation_hands_out_a_token_exactly_when_the_check_passes() {
    let reg = rooted_registry();
    let instance_of_meta = PyAny { type_addr: TYPE_TYPE_ADDR };
    let token = ValidatedHandle::<PyType>::validate(&reg, instance_of_meta);
    assert!(token.is_some());
    assert_eq!(token.unwrap().handle().type_addr, TYPE_TYPE_ADDR);
    let as_root = ValidatedHandle::<PyAny>::validate(&reg, instance_of_meta);
    assert!(as_root.is_some());
    let plain_object = PyAny { type_addr: OBJECT_TYPE_ADDR };
    let refused = ValidatedHandle::<PyType>::validate(&reg, plain_object);
    assert!(refused.is_none());
}
